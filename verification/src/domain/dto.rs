//! The shapes that leave the service: the two envelopes, and the mapping
//! from field names to the messages raised against them.

use crate::domain::User;
use vstd::prelude::*;

verus! {

/// A mapping from field names to message lists, as mathematical values.
pub type FieldMap = Map<Seq<char>, Seq<Seq<char>>>;

/// The characters of each message of a list.
pub open spec fn texts(messages: Seq<String>) -> Seq<Seq<char>> {
    messages.map_values(|m: String| m@)
}

/// The mapping that a list of `(field, messages)` pairs stands for: each
/// pair is entered in turn, a later pair replacing an earlier one of the
/// same field.
pub open spec fn map_of(pairs: Seq<(Seq<char>, Seq<Seq<char>>)>) -> FieldMap
    decreases pairs.len(),
{
    if pairs.len() == 0 {
        Map::empty()
    } else {
        map_of(pairs.drop_last()).insert(pairs.last().0, pairs.last().1)
    }
}

/// No field name occurs twice in the list.
pub open spec fn distinct_fields(pairs: Seq<(Seq<char>, Seq<Seq<char>>)>) -> bool {
    forall|i: int, j: int| 0 <= i < j < pairs.len() ==> pairs[i].0 != pairs[j].0
}

/// A field is a key of the mapping exactly if some pair names it.
pub proof fn lemma_map_of_keys(pairs: Seq<(Seq<char>, Seq<Seq<char>>)>, field: Seq<char>)
    ensures
        map_of(pairs).contains_key(field) <==> exists|i: int|
            0 <= i < pairs.len() && (#[trigger] pairs[i]).0 == field,
    decreases pairs.len(),
{
    if pairs.len() > 0 {
        let front = pairs.drop_last();
        lemma_map_of_keys(front, field);
        if map_of(pairs).contains_key(field) {
            if pairs.last().0 == field {
                assert(pairs[pairs.len() - 1].0 == field);
            } else {
                let i = choose|i: int| 0 <= i < front.len() && (#[trigger] front[i]).0 == field;
                assert(pairs[i].0 == field);
            }
        } else {
            assert forall|i: int| 0 <= i < pairs.len() implies (#[trigger] pairs[i]).0
                != field by {
                if i < front.len() {
                    assert(front[i].0 != field);
                }
            }
        }
    }
}

/// Where no field occurs twice, each pair's messages are what the mapping
/// holds under that pair's field.
pub proof fn lemma_map_of_entry(pairs: Seq<(Seq<char>, Seq<Seq<char>>)>, i: int)
    requires
        distinct_fields(pairs),
        0 <= i < pairs.len(),
    ensures
        map_of(pairs).contains_key(pairs[i].0),
        map_of(pairs)[pairs[i].0] == pairs[i].1,
    decreases pairs.len(),
{
    if i < pairs.len() - 1 {
        let front = pairs.drop_last();
        assert(distinct_fields(front)) by {
            assert forall|a: int, b: int| 0 <= a < b < front.len() implies front[a].0
                != front[b].0 by {
                assert(pairs[a].0 != pairs[b].0);
            }
        }
        lemma_map_of_entry(front, i);
        assert(front[i] == pairs[i]);
        assert(pairs[i].0 != pairs[pairs.len() - 1].0);
    }
}

/// Where no field occurs twice, giving one pair new messages enters them
/// under that pair's field and leaves the rest of the mapping alone.
pub proof fn lemma_map_of_update(
    pairs: Seq<(Seq<char>, Seq<Seq<char>>)>,
    i: int,
    messages: Seq<Seq<char>>,
)
    requires
        distinct_fields(pairs),
        0 <= i < pairs.len(),
    ensures
        distinct_fields(pairs.update(i, (pairs[i].0, messages))),
        map_of(pairs.update(i, (pairs[i].0, messages))) == map_of(pairs).insert(
            pairs[i].0,
            messages,
        ),
    decreases pairs.len(),
{
    let changed = pairs.update(i, (pairs[i].0, messages));
    assert(distinct_fields(changed)) by {
        assert forall|a: int, b: int| 0 <= a < b < changed.len() implies changed[a].0
            != changed[b].0 by {
            assert(pairs[a].0 != pairs[b].0);
        }
    }
    let front = pairs.drop_last();
    if i == pairs.len() - 1 {
        assert(changed.drop_last() =~= front);
        assert(map_of(changed) =~= map_of(pairs).insert(pairs[i].0, messages));
    } else {
        assert(distinct_fields(front)) by {
            assert forall|a: int, b: int| 0 <= a < b < front.len() implies front[a].0
                != front[b].0 by {
                assert(pairs[a].0 != pairs[b].0);
            }
        }
        lemma_map_of_update(front, i, messages);
        assert(front[i] == pairs[i]);
        assert(changed.drop_last() =~= front.update(i, (pairs[i].0, messages)));
        assert(changed.last() == pairs.last());
        assert(pairs[i].0 != pairs[pairs.len() - 1].0);
        assert(map_of(changed) =~= map_of(pairs).insert(pairs[i].0, messages));
    }
}

/// The messages raised against one field.
#[derive(Debug)]
pub struct FieldMessages {
    pub field: String,
    pub messages: Vec<String>,
}

impl FieldMessages {
    /// The field's name and its messages, as mathematical values.
    pub open spec fn pair(&self) -> (Seq<char>, Seq<Seq<char>>) {
        (self.field@, texts(self.messages@))
    }
}

/// The entries of a list, each as a pair of mathematical values.
pub open spec fn pairs_of(entries: Seq<FieldMessages>) -> Seq<(Seq<char>, Seq<Seq<char>>)> {
    entries.map_values(|e: FieldMessages| e.pair())
}

/// A copy of a list of messages.
fn clone_messages(messages: &Vec<String>) -> (copy: Vec<String>)
    ensures
        copy@ == messages@,
{
    let mut copy: Vec<String> = Vec::new();
    let mut i: usize = 0;
    while i < messages.len()
        invariant
            i <= messages.len(),
            copy@ == messages@.take(i as int),
        decreases messages.len() - i,
    {
        copy.push(messages[i].clone());
        assert(copy@ =~= messages@.take(i + 1));
        i += 1;
    }
    assert(messages@.take(i as int) =~= messages@);
    copy
}

/// A mapping from field names to the messages raised against each. No
/// field is held twice.
#[derive(Debug)]
pub struct FieldErrors {
    entries: Vec<FieldMessages>,
}

impl View for FieldErrors {
    type V = FieldMap;

    closed spec fn view(&self) -> FieldMap {
        map_of(self.pairs())
    }
}

impl FieldErrors {
    /// The entries as pairs of mathematical values.
    spec fn pairs(&self) -> Seq<(Seq<char>, Seq<Seq<char>>)> {
        pairs_of(self.entries@)
    }

    #[verifier::type_invariant]
    closed spec fn no_field_twice(&self) -> bool {
        distinct_fields(self.pairs())
    }

    /// The empty mapping.
    pub fn new() -> (errors: FieldErrors)
        ensures
            errors@ == FieldMap::empty(),
    {
        let errors = FieldErrors { entries: Vec::new() };
        assert(errors.pairs() =~= Seq::empty());
        errors
    }

    /// Whether no field has a message.
    pub fn is_empty(&self) -> (empty: bool)
        ensures
            empty == (self@ == FieldMap::empty()),
    {
        let empty = self.entries.len() == 0;
        proof {
            if !empty {
                let last = self.pairs().last();
                assert(self@.contains_key(last.0));
                assert(!FieldMap::empty().contains_key(last.0));
            }
        }
        empty
    }

    /// The entries, one per field.
    pub fn entries(&self) -> (entries: &Vec<FieldMessages>)
        ensures
            distinct_fields(pairs_of(entries@)),
            map_of(pairs_of(entries@)) == self@,
    {
        proof {
            use_type_invariant(self);
        }
        &self.entries
    }

    /// Where the entry of `field` stands, if the mapping has one.
    fn position(&self, field: &String) -> (at: Option<usize>)
        ensures
            match at {
                Some(i) => i < self.pairs().len() && self.pairs()[i as int].0 == field@,
                None => forall|i: int|
                    0 <= i < self.pairs().len() ==> (#[trigger] self.pairs()[i]).0 != field@,
            },
    {
        let mut i: usize = 0;
        while i < self.entries.len()
            invariant
                i <= self.entries.len(),
                forall|k: int| 0 <= k < i ==> (#[trigger] self.pairs()[k]).0 != field@,
            decreases self.entries.len() - i,
        {
            if self.entries[i].field == *field {
                return Some(i);
            }
            i += 1;
        }
        None
    }

    /// Whether `field` has messages.
    pub fn contains_key(&self, field: &str) -> (found: bool)
        ensures
            found == self@.contains_key(field@),
    {
        proof {
            lemma_map_of_keys(self.pairs(), field@);
        }
        self.position(&field.to_owned()).is_some()
    }

    /// The messages raised against `field`, if there are any.
    pub fn get(&self, field: &str) -> (found: Option<&Vec<String>>)
        ensures
            match found {
                Some(messages) => self@.contains_key(field@) && self@[field@] == texts(
                    messages@,
                ),
                None => !self@.contains_key(field@),
            },
    {
        proof {
            use_type_invariant(self);
            lemma_map_of_keys(self.pairs(), field@);
        }
        match self.position(&field.to_owned()) {
            Some(i) => {
                proof {
                    lemma_map_of_entry(self.pairs(), i as int);
                }
                Some(&self.entries[i].messages)
            },
            None => None,
        }
    }

    /// Enters `messages` under `field`, in place of what the field had.
    pub fn insert(&mut self, field: String, messages: Vec<String>)
        ensures
            final(self)@ == old(self)@.insert(field@, texts(messages@)),
    {
        proof {
            use_type_invariant(&*self);
            lemma_map_of_keys(self.pairs(), field@);
        }
        let ghost before = self.pairs();
        let at = self.position(&field);
        let mut entries: Vec<FieldMessages> = Vec::new();
        std::mem::swap(&mut entries, &mut self.entries);
        let ghost fresh = (field@, texts(messages@));
        match at {
            Some(i) => {
                let _ = entries.remove(i);
                entries.insert(i, FieldMessages { field, messages });
                proof {
                    lemma_map_of_update(before, i as int, fresh.1);
                    assert(pairs_of(entries@) =~= before.update(
                        i as int,
                        fresh,
                    ));
                }
            },
            None => {
                entries.push(FieldMessages { field, messages });
                proof {
                    let after = pairs_of(entries@);
                    assert(after =~= before.push(fresh));
                    assert(after.drop_last() =~= before);
                    assert(distinct_fields(after));
                }
            },
        }
        self.entries = entries;
    }

    /// Adds `message` to the messages of `field`, which gets an entry if it
    /// had none.
    pub fn add(&mut self, field: String, message: String)
        ensures
            final(self)@ == add_message(old(self)@, field@, message@),
    {
        proof {
            use_type_invariant(&*self);
            lemma_map_of_keys(self.pairs(), field@);
        }
        let ghost before = self.pairs();
        let at = self.position(&field);
        let mut entries: Vec<FieldMessages> = Vec::new();
        std::mem::swap(&mut entries, &mut self.entries);
        match at {
            Some(i) => {
                let mut entry = entries.remove(i);
                let ghost had = texts(entry.messages@);
                entry.messages.push(message);
                proof {
                    lemma_map_of_entry(before, i as int);
                    lemma_map_of_update(before, i as int, had.push(message@));
                    assert(texts(entry.messages@) =~= had.push(message@));
                }
                entries.insert(i, entry);
                proof {
                    assert(pairs_of(entries@) =~= before.update(
                        i as int,
                        (field@, had.push(message@)),
                    ));
                }
            },
            None => {
                let mut messages: Vec<String> = Vec::new();
                messages.push(message);
                entries.push(FieldMessages { field, messages });
                proof {
                    let fresh = (field@, Seq::<Seq<char>>::empty().push(message@));
                    let after = pairs_of(entries@);
                    assert(texts(messages@) =~= fresh.1);
                    assert(after =~= before.push(fresh));
                    assert(after.drop_last() =~= before);
                    assert(distinct_fields(after));
                }
            },
        }
        self.entries = entries;
    }
}

/// The mapping after one more message was raised against `field`.
pub open spec fn add_message(errors: FieldMap, field: Seq<char>, message: Seq<char>) -> FieldMap {
    let had = if errors.contains_key(field) {
        errors[field]
    } else {
        Seq::empty()
    };
    errors.insert(field, had.push(message))
}

impl Clone for FieldErrors {
    fn clone(&self) -> (copy: Self)
        ensures
            copy@ == self@,
    {
        proof {
            use_type_invariant(self);
        }
        let mut entries: Vec<FieldMessages> = Vec::new();
        let mut i: usize = 0;
        while i < self.entries.len()
            invariant
                i <= self.entries.len(),
                entries@.len() == i,
                forall|k: int|
                    0 <= k < i ==> (#[trigger] entries@[k]).pair() == self.entries@[k].pair(),
            decreases self.entries.len() - i,
        {
            let entry = &self.entries[i];
            entries.push(
                FieldMessages {
                    field: entry.field.clone(),
                    messages: clone_messages(&entry.messages),
                },
            );
            i += 1;
        }
        assert(pairs_of(entries@) =~= self.pairs());
        FieldErrors { entries }
    }
}

/// The envelope of a success: `data` holds the payload.
#[derive(Debug)]
pub struct ApiResponse<T> {
    pub status: String,
    pub message: String,
    pub data: Option<T>,
}

/// The envelope of a failure: `errors` holds the messages by field, where
/// the failure has any.
#[derive(Debug)]
pub struct ApiErrorResponse {
    pub status: String,
    pub message: String,
    pub errors: Option<FieldErrors>,
}

/// What an `ApiErrorResponse` holds, as mathematical values.
pub struct ApiErrorResponseView {
    pub status: Seq<char>,
    pub message: Seq<char>,
    pub errors: Option<FieldMap>,
}

impl View for ApiErrorResponse {
    type V = ApiErrorResponseView;

    open spec fn view(&self) -> ApiErrorResponseView {
        ApiErrorResponseView {
            status: self.status@,
            message: self.message@,
            errors: match self.errors {
                Some(errors) => Some(errors@),
                None => None,
            },
        }
    }
}

/// What a reply carries: one envelope or the other, never both.
#[derive(Debug)]
pub enum Envelope {
    Success(ApiResponse<User>),
    Failure(ApiErrorResponse),
}

/// A reply as the transport sends it: a status code and an envelope.
#[derive(Debug)]
pub struct HttpReply {
    pub status: u16,
    pub body: Envelope,
}

pub const STATUS_OK: u16 = 200;

pub const STATUS_CREATED: u16 = 201;

pub const STATUS_BAD_REQUEST: u16 = 400;

pub const STATUS_NOT_FOUND: u16 = 404;

pub const STATUS_INTERNAL_SERVER_ERROR: u16 = 500;

impl HttpReply {
    /// The text of the envelope's `status` field.
    pub open spec fn status_text(&self) -> Seq<char> {
        match self.body {
            Envelope::Success(body) => body.status@,
            Envelope::Failure(body) => body.status@,
        }
    }

    /// The envelope carries a payload.
    pub open spec fn has_data(&self) -> bool {
        self.body matches Envelope::Success(body) && body.data is Some
    }

    /// The envelope carries messages by field.
    pub open spec fn has_errors(&self) -> bool {
        self.body matches Envelope::Failure(body) && body.errors is Some
    }

    /// The envelope is one of the two the service sends: a success that
    /// says so and has its payload, or a failure that says so.
    pub open spec fn well_formed(&self) -> bool {
        match self.body {
            Envelope::Success(body) => body.status@ == "success"@ && body.data is Some,
            Envelope::Failure(body) => body.status@ == "error"@,
        }
    }

    /// A well-formed envelope that reads "success" carries a payload and no
    /// messages by field; one that reads "error" carries no payload. It
    /// reads one or the other, and never carries both.
    pub proof fn lemma_data_or_errors(&self)
        requires
            self.well_formed(),
        ensures
            self.status_text() == "success"@ <==> self.has_data(),
            self.status_text() == "error"@ <==> !self.has_data(),
            self.has_errors() ==> self.status_text() == "error"@,
            !(self.has_data() && self.has_errors()),
    {
        reveal_strlit("success");
        reveal_strlit("error");
        assert("success"@.len() != "error"@.len());
    }
}

/// One error with a code of its own.
#[derive(Debug)]
pub struct ErrorDetail {
    pub code: String,
    pub message: String,
}

} // verus!
