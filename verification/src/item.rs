//! One pasteboard entry and the representations it carries.

use vstd::prelude::*;

use crate::error::ClipboardError;

verus! {

/// Type identifier of the plain-text representation.
pub const PLAIN_TEXT_TYPE: &'static str = "public.utf8-plain-text";

/// Type identifier of the binary attachment.
pub const ATTACHMENT_TYPE: &'static str = "com.kakao.kakaoTalk.emoji.attachment";

/// The two fixed type identifiers differ.
pub proof fn lemma_fixed_types_differ()
    ensures
        PLAIN_TEXT_TYPE@ != ATTACHMENT_TYPE@,
        PLAIN_TEXT_TYPE@.len() == 22,
        ATTACHMENT_TYPE@.len() == 36,
{
    reveal_strlit("public.utf8-plain-text");
    reveal_strlit("com.kakao.kakaoTalk.emoji.attachment");
    assert(PLAIN_TEXT_TYPE@.len() == 22);
    assert(ATTACHMENT_TYPE@.len() == 36);
}

/// The representations of an item as mathematics: in the order in which the
/// item lists them, each a type identifier with the payload kept under it.
pub type Representations = Seq<(Seq<char>, Seq<u8>)>;

/// The type identifiers of `reps`, in order.
pub open spec fn type_ids(reps: Representations) -> Seq<Seq<char>> {
    Seq::new(reps.len(), |i: int| reps[i].0)
}

/// No type identifier occurs twice in `reps`.
pub open spec fn distinct_types(reps: Representations) -> bool {
    forall|i: int, j: int| 0 <= i < j < reps.len() ==> (#[trigger] reps[i]).0 != (#[trigger] reps[j]).0
}

/// `reps` holds a representation whose type identifier is exactly `type_id`.
pub open spec fn carries(reps: Representations, type_id: Seq<char>) -> bool {
    exists|i: int| 0 <= i < reps.len() && (#[trigger] reps[i]).0 == type_id
}

/// Where in `reps` the representation of type `type_id` stands.
pub open spec fn position_of(reps: Representations, type_id: Seq<char>) -> int
    recommends
        carries(reps, type_id),
{
    choose|i: int| 0 <= i < reps.len() && (#[trigger] reps[i]).0 == type_id
}

/// The payload kept under `type_id`; empty where `reps` has no such
/// representation.
pub open spec fn payload(reps: Representations, type_id: Seq<char>) -> Seq<u8> {
    if carries(reps, type_id) {
        reps[position_of(reps, type_id)].1
    } else {
        Seq::empty()
    }
}

/// `reps` after `data` has been put under `type_id`: a representation of
/// that type keeps its place and takes the new payload, a new type goes to
/// the end.
pub open spec fn with_data(reps: Representations, type_id: Seq<char>, data: Seq<u8>) -> Representations {
    if carries(reps, type_id) {
        reps.update(position_of(reps, type_id), (type_id, data))
    } else {
        reps.push((type_id, data))
    }
}

/// With distinct types, the representation at `i` is the one found under
/// its own type identifier.
pub proof fn lemma_position_of_unique(reps: Representations, i: int)
    requires
        distinct_types(reps),
        0 <= i < reps.len(),
    ensures
        carries(reps, reps[i].0),
        position_of(reps, reps[i].0) == i,
        payload(reps, reps[i].0) == reps[i].1,
{
    let k = position_of(reps, reps[i].0);
    assert(0 <= k < reps.len() && reps[k].0 == reps[i].0);
}

/// Putting a payload under a type keeps the types distinct.
pub proof fn lemma_with_data_distinct(reps: Representations, type_id: Seq<char>, data: Seq<u8>)
    requires
        distinct_types(reps),
    ensures
        distinct_types(with_data(reps, type_id, data)),
{
    let after = with_data(reps, type_id, data);
    if carries(reps, type_id) {
        let p = position_of(reps, type_id);
        assert forall|i: int, j: int| 0 <= i < j < after.len() implies (#[trigger] after[i]).0 != (
        #[trigger] after[j]).0 by {
            assert(after[i].0 == reps[i].0);
            assert(after[j].0 == reps[j].0);
        }
    } else {
        assert forall|i: int, j: int| 0 <= i < j < after.len() implies (#[trigger] after[i]).0 != (
        #[trigger] after[j]).0 by {
            if j < reps.len() {
                assert(after[i] == reps[i] && after[j] == reps[j]);
            } else {
                assert(after[i] == reps[i]);
                assert(reps[i].0 != type_id);
            }
        }
    }
}

/// Putting a payload under one type leaves every other type as it was.
proof fn lemma_with_data_elsewhere(reps: Representations, type_id: Seq<char>, data: Seq<u8>, other: Seq<char>)
    requires
        distinct_types(reps),
        other != type_id,
    ensures
        carries(with_data(reps, type_id, data), other) == carries(reps, other),
        payload(with_data(reps, type_id, data), other) == payload(reps, other),
{
    let after = with_data(reps, type_id, data);
    lemma_with_data_distinct(reps, type_id, data);
    if carries(reps, other) {
        let k = position_of(reps, other);
        assert(after[k] == reps[k]);
        lemma_position_of_unique(after, k);
    } else if carries(after, other) {
        let k = position_of(after, other);
        assert(k < reps.len());
        assert(after[k] == reps[k]);
    }
}

/// What putting a payload under a type does, seen as a keyed collection:
/// the type now answers with the new payload, every other type answers as
/// before, and the order of types changes only by a new type at the end.
pub proof fn lemma_with_data_lookup(reps: Representations, type_id: Seq<char>, data: Seq<u8>)
    requires
        distinct_types(reps),
    ensures
        carries(with_data(reps, type_id, data), type_id),
        payload(with_data(reps, type_id, data), type_id) == data,
        forall|other: Seq<char>|
            other != type_id ==> #[trigger] carries(with_data(reps, type_id, data), other) == carries(
                reps,
                other,
            ),
        forall|other: Seq<char>|
            other != type_id ==> #[trigger] payload(with_data(reps, type_id, data), other) == payload(
                reps,
                other,
            ),
        type_ids(with_data(reps, type_id, data)) == if carries(reps, type_id) {
            type_ids(reps)
        } else {
            type_ids(reps).push(type_id)
        },
{
    let after = with_data(reps, type_id, data);
    lemma_with_data_distinct(reps, type_id, data);
    let p = if carries(reps, type_id) {
        position_of(reps, type_id)
    } else {
        reps.len() as int
    };
    assert(0 <= p < after.len() && after[p] == (type_id, data));
    lemma_position_of_unique(after, p);
    assert forall|other: Seq<char>| other != type_id implies #[trigger] carries(after, other)
        == carries(reps, other) by {
        lemma_with_data_elsewhere(reps, type_id, data, other);
    }
    assert forall|other: Seq<char>| other != type_id implies #[trigger] payload(after, other)
        == payload(reps, other) by {
        lemma_with_data_elsewhere(reps, type_id, data, other);
    }
    assert(type_ids(after) =~= if carries(reps, type_id) {
        type_ids(reps)
    } else {
        type_ids(reps).push(type_id)
    });
}

/// One representation: a payload and the type identifier that names its
/// format.
#[derive(Debug, PartialEq, Eq)]
struct Representation {
    type_id: String,
    data: Vec<u8>,
}

impl View for Representation {
    type V = (Seq<char>, Seq<u8>);

    closed spec fn view(&self) -> (Seq<char>, Seq<u8>) {
        (self.type_id@, self.data@)
    }
}

impl Clone for Representation {
    fn clone(&self) -> (copy: Representation)
        ensures
            copy@ == self@,
    {
        let data = self.data.clone();
        assert(data@ =~= self.data@);
        Representation { type_id: self.type_id.clone(), data }
    }
}

/// A pasteboard entry: zero or more representations, no two of the same
/// type.
#[derive(Debug, PartialEq, Eq)]
pub struct Item {
    representations: Vec<Representation>,
}

impl View for Item {
    type V = Representations;

    closed spec fn view(&self) -> Representations {
        Seq::new(self.representations@.len(), |i: int| self.representations@[i]@)
    }
}

impl DeepView for Item {
    type V = Representations;

    open spec fn deep_view(&self) -> Representations {
        self@
    }
}

impl Clone for Item {
    fn clone(&self) -> (copy: Item)
        ensures
            copy@ == self@,
            distinct_types(copy@),
    {
        proof {
            use_type_invariant(self);
        }
        let mut representations: Vec<Representation> = Vec::new();
        let mut i: usize = 0;
        while i < self.representations.len()
            invariant
                i <= self.representations@.len(),
                representations@.len() == i,
                forall|k: int| 0 <= k < i ==> (#[trigger] representations@[k])@ == self.representations@[k]@,
            decreases self.representations@.len() - i,
        {
            representations.push(self.representations[i].clone());
            i += 1;
        }
        assert(Seq::new(representations@.len(), |k: int| representations@[k]@) =~= self@);
        Item { representations }
    }
}

impl Item {
    #[verifier::type_invariant]
    spec fn unique_types(&self) -> bool {
        distinct_types(self@)
    }

    /// An item without representations.
    pub fn new() -> (item: Item)
        ensures
            item@ == Seq::<(Seq<char>, Seq<u8>)>::empty(),
            distinct_types(item@),
    {
        let item = Item { representations: Vec::new() };
        assert(item@ =~= Seq::<(Seq<char>, Seq<u8>)>::empty());
        item
    }

    /// Index of the representation of type `wanted`, if the item has one.
    fn find(&self, wanted: &String) -> (found: Option<usize>)
        ensures
            distinct_types(self@),
            match found {
                Some(i) => i < self@.len() && self@[i as int].0 == wanted@
                    && carries(self@, wanted@) && position_of(self@, wanted@) == i,
                None => !carries(self@, wanted@),
            },
    {
        proof {
            use_type_invariant(self);
        }
        let mut i: usize = 0;
        while i < self.representations.len()
            invariant
                i <= self.representations@.len(),
                self@.len() == self.representations@.len(),
                distinct_types(self@),
                forall|k: int| 0 <= k < i ==> (#[trigger] self@[k]).0 != wanted@,
            decreases self.representations@.len() - i,
        {
            if self.representations[i].type_id == *wanted {
                proof {
                    lemma_position_of_unique(self@, i as int);
                }
                return Some(i);
            }
            i += 1;
        }
        None
    }

    /// Puts `data` under `type_id`. A payload already kept under that type
    /// is replaced where it stands; a new type is listed last.
    pub fn set_data(&mut self, type_id: &str, data: Vec<u8>)
        ensures
            final(self)@ == with_data(old(self)@, type_id@, data@),
            distinct_types(old(self)@),
            distinct_types(final(self)@),
            carries(final(self)@, type_id@),
            payload(final(self)@, type_id@) == data@,
            forall|other: Seq<char>|
                other != type_id@ ==> #[trigger] carries(final(self)@, other) == carries(
                    old(self)@,
                    other,
                ),
            forall|other: Seq<char>|
                other != type_id@ ==> #[trigger] payload(final(self)@, other) == payload(old(self)@, other),
            type_ids(final(self)@) == if carries(old(self)@, type_id@) {
                type_ids(old(self)@)
            } else {
                type_ids(old(self)@).push(type_id@)
            },
    {
        let wanted = type_id.to_owned();
        let found = self.find(&wanted);
        let ghost before = self@;
        let mut representations: Vec<Representation> = Vec::new();
        core::mem::swap(&mut self.representations, &mut representations);
        match found {
            Some(i) => {
                representations.set(i, Representation { type_id: wanted, data });
            },
            None => {
                representations.push(Representation { type_id: wanted, data });
            },
        }
        proof {
            let after = Seq::new(representations@.len(), |k: int| representations@[k]@);
            assert(after =~= with_data(before, type_id@, data@));
            lemma_with_data_distinct(before, type_id@, data@);
            lemma_with_data_lookup(before, type_id@, data@);
        }
        self.representations = representations;
    }

    /// The payload kept under exactly `type_id`. An item that has no such
    /// representation answers `MissingRepresentation`.
    pub fn data_for_type(&self, type_id: &str) -> (found: Result<&Vec<u8>, ClipboardError>)
        ensures
            distinct_types(self@),
            match found {
                Ok(data) => carries(self@, type_id@) && data@ == payload(self@, type_id@),
                Err(e) => !carries(self@, type_id@) && e == ClipboardError::MissingRepresentation,
            },
    {
        let wanted = type_id.to_owned();
        match self.find(&wanted) {
            Some(i) => Ok(&self.representations[i].data),
            None => Err(ClipboardError::MissingRepresentation),
        }
    }

    /// The type identifiers of the item's representations, in the item's
    /// order.
    pub fn types(&self) -> (ids: Vec<String>)
        ensures
            ids.deep_view() == type_ids(self@),
            distinct_types(self@),
    {
        proof {
            use_type_invariant(self);
        }
        let mut ids: Vec<String> = Vec::new();
        let mut i: usize = 0;
        while i < self.representations.len()
            invariant
                i <= self.representations@.len(),
                self@.len() == self.representations@.len(),
                ids@.len() == i,
                forall|k: int| 0 <= k < i ==> (#[trigger] ids@[k])@ == self@[k].0,
            decreases self.representations@.len() - i,
        {
            ids.push(self.representations[i].type_id.clone());
            i += 1;
        }
        assert(ids.deep_view() =~= type_ids(self@));
        ids
    }
}

} // verus!
