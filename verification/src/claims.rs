use vstd::prelude::*;
use vstd::utf8::{encode_utf8, encode_utf8_decode_utf8};

verus! {

/// The kinds of value that a claim can hold.
#[derive(Clone, Copy, Debug, PartialEq, Eq, Structural)]
pub enum ClaimKind {
    Null,
    Bool,
    Number,
    String,
    Array,
    Object,
}

/// The mathematical value of a claim.
pub enum ValueModel {
    Null,
    Bool(bool),
    Number(Seq<char>),
    Text(Seq<char>),
    List(Seq<ValueModel>),
    Record(Seq<(Seq<char>, ValueModel)>),
}

/// The mathematical value of a document: its entries, in order.
pub type DocumentModel = Seq<(Seq<char>, ValueModel)>;

impl ValueModel {
    /// The kind of this value.
    pub open spec fn kind(self) -> ClaimKind {
        match self {
            ValueModel::Null => ClaimKind::Null,
            ValueModel::Bool(_) => ClaimKind::Bool,
            ValueModel::Number(_) => ClaimKind::Number,
            ValueModel::Text(_) => ClaimKind::String,
            ValueModel::List(_) => ClaimKind::Array,
            ValueModel::Record(_) => ClaimKind::Object,
        }
    }
}

/// A dynamically typed claim value.
#[derive(Debug, PartialEq, Eq)]
pub enum ClaimValue {
    Null,
    Bool(bool),
    Number(String),
    String(String),
    Array(Vec<ClaimValue>),
    Object(ClaimDocument),
}

/// An ordered document of named claims.
#[derive(Debug, PartialEq, Eq)]
pub struct ClaimDocument {
    entries: Vec<(String, ClaimValue)>,
}

impl ClaimValue {
    /// The mathematical value that this value stands for.
    pub open spec fn model(self) -> ValueModel
        decreases self,
    {
        match self {
            ClaimValue::Null => ValueModel::Null,
            ClaimValue::Bool(b) => ValueModel::Bool(b),
            ClaimValue::Number(n) => ValueModel::Number(n@),
            ClaimValue::String(s) => ValueModel::Text(s@),
            ClaimValue::Array(items) => ValueModel::List(
                Seq::new(
                    items@.len(),
                    |i: int|
                        if 0 <= i < items@.len() {
                            items@[i].model()
                        } else {
                            ValueModel::Null
                        },
                ),
            ),
            ClaimValue::Object(doc) => ValueModel::Record(doc.model()),
        }
    }
}

impl ClaimDocument {
    /// The entries of this document, in order.
    pub closed spec fn model(self) -> DocumentModel
        decreases self,
    {
        Seq::new(
            self.entries@.len(),
            |i: int|
                if 0 <= i < self.entries@.len() {
                    (self.entries@[i].0@, self.entries@[i].1.model())
                } else {
                    (Seq::empty(), ValueModel::Null)
                },
        )
    }
}

impl View for ClaimValue {
    type V = ValueModel;

    open spec fn view(&self) -> ValueModel {
        self.model()
    }
}

impl View for ClaimDocument {
    type V = DocumentModel;

    open spec fn view(&self) -> DocumentModel {
        self.model()
    }
}

/// Whether `i` is the place of the first entry of `doc` named `name`.
pub open spec fn is_first_named(doc: DocumentModel, name: Seq<char>, i: int) -> bool {
    &&& 0 <= i < doc.len()
    &&& doc[i].0 == name
    &&& forall|j: int| 0 <= j < i ==> (#[trigger] doc[j]).0 != name
}

/// Whether `doc` holds a claim named `name`.
pub open spec fn has_claim(doc: DocumentModel, name: Seq<char>) -> bool {
    exists|i: int| is_first_named(doc, name, i)
}

/// The value that `doc` gives to `name`: that of the first entry of that
/// name, if there is one.
pub open spec fn lookup(doc: DocumentModel, name: Seq<char>) -> Option<ValueModel> {
    if has_claim(doc, name) {
        Some(doc[choose|i: int| is_first_named(doc, name, i)].1)
    } else {
        None
    }
}

/// Whether no two entries of `doc` share a name.
pub open spec fn unique_names(doc: DocumentModel) -> bool {
    forall|i: int, j: int|
        0 <= i < j < doc.len() ==> (#[trigger] doc[i]).0 != (#[trigger] doc[j]).0
}

/// The document `doc` after `name` was given `value`: the first entry of
/// that name is replaced where it stands, and a new name goes to the end.
pub open spec fn inserted(doc: DocumentModel, name: Seq<char>, value: ValueModel) -> DocumentModel {
    if has_claim(doc, name) {
        doc.update(choose|i: int| is_first_named(doc, name, i), (name, value))
    } else {
        doc.push((name, value))
    }
}

/// Whether two strings hold the same text.
pub(crate) fn same_text(a: &str, b: &str) -> (same: bool)
    ensures
        same == (a@ == b@),
{
    let x = a.as_bytes();
    let y = b.as_bytes();
    proof {
        encode_utf8_decode_utf8(a@);
        encode_utf8_decode_utf8(b@);
    }
    if x.len() != y.len() {
        return false;
    }
    let mut i: usize = 0;
    while i < x.len()
        invariant
            x@ == encode_utf8(a@),
            y@ == encode_utf8(b@),
            x@.len() == y@.len(),
            i <= x@.len(),
            forall|j: int| 0 <= j < i ==> x@[j] == y@[j],
        decreases x@.len() - i,
    {
        if x[i] != y[i] {
            return false;
        }
        i += 1;
    }
    assert(x@ =~= y@);
    true
}

impl ClaimDocument {
    #[verifier::type_invariant]
    closed spec fn names_differ(self) -> bool {
        unique_names(self.model())
    }

    /// The document without any claim.
    pub fn new() -> (doc: Self)
        ensures
            doc@ == DocumentModel::empty(),
    {
        let doc = ClaimDocument { entries: Vec::new() };
        assert(doc@ =~= DocumentModel::empty());
        doc
    }

    /// The number of claims. No two of them share a name.
    pub fn len(&self) -> (n: usize)
        ensures
            n == self@.len(),
            unique_names(self@),
    {
        proof {
            use_type_invariant(self);
        }
        self.entries.len()
    }

    /// The value of the claim named `name`, if the document holds one.
    pub fn get(&self, name: &str) -> (found: Option<&ClaimValue>)
        ensures
            match found {
                Some(value) => lookup(self@, name@) == Some(value@),
                None => lookup(self@, name@) is None,
            },
    {
        let mut i: usize = 0;
        while i < self.entries.len()
            invariant
                i <= self.entries@.len(),
                self@.len() == self.entries@.len(),
                forall|j: int| 0 <= j < i ==> (#[trigger] self@[j]).0 != name@,
            decreases self.entries@.len() - i,
        {
            if same_text(self.entries[i].0.as_str(), name) {
                assert(is_first_named(self@, name@, i as int));
                return Some(&self.entries[i].1);
            }
            i += 1;
        }
        None
    }

    /// The claim at place `i`, by name and value, if the document is that long.
    pub fn entry(&self, i: usize) -> (found: Option<(&String, &ClaimValue)>)
        ensures
            match found {
                Some((name, value)) => i < self@.len() && self@[i as int] == (name@, value@),
                None => i >= self@.len(),
            },
    {
        if i < self.entries.len() {
            Some((&self.entries[i].0, &self.entries[i].1))
        } else {
            None
        }
    }

    /// Gives `name` the value `value`.
    pub fn insert(&mut self, name: String, value: ClaimValue)
        ensures
            final(self)@ == inserted(old(self)@, name@, value@),
    {
        proof {
            use_type_invariant(&*self);
        }
        let ghost before = self@;
        let mut i: usize = 0;
        while i < self.entries.len()
            invariant
                i <= self.entries@.len(),
                *self == *old(self),
                before == self@,
                unique_names(before),
                forall|j: int| 0 <= j < i ==> (#[trigger] before[j]).0 != name@,
            decreases self.entries@.len() - i,
        {
            if same_text(self.entries[i].0.as_str(), name.as_str()) {
                assert(is_first_named(before, name@, i as int));
                let mut entries: Vec<(String, ClaimValue)> = Vec::new();
                core::mem::swap(&mut self.entries, &mut entries);
                entries.set(i, (name, value));
                let ghost after = before.update(i as int, (name@, value@));
                assert forall|a: int, b: int| 0 <= a < b < after.len() implies (#[trigger] after[a]).0
                    != (#[trigger] after[b]).0 by {
                    assert(before[a].0 != before[b].0);
                }
                assert((ClaimDocument { entries }).model() =~= after);
                self.entries = entries;
                return ;
            }
            i += 1;
        }
        let mut entries: Vec<(String, ClaimValue)> = Vec::new();
        core::mem::swap(&mut self.entries, &mut entries);
        entries.push((name, value));
        let ghost after = before.push((name@, value@));
        assert forall|a: int, b: int| 0 <= a < b < after.len() implies (#[trigger] after[a]).0
            != (#[trigger] after[b]).0 by {
            if b < before.len() {
                assert(before[a].0 != before[b].0);
            } else {
                assert(before[a].0 != name@);
            }
        }
        assert((ClaimDocument { entries }).model() =~= after);
        self.entries = entries;
    }

    /// The document with `name` given the value `value`.
    pub fn with(self, name: String, value: ClaimValue) -> (doc: Self)
        ensures
            doc@ == inserted(self@, name@, value@),
    {
        let mut doc = self;
        doc.insert(name, value);
        doc
    }
}

impl ClaimKind {
    /// The name of this kind.
    pub open spec fn name_spec(self) -> Seq<char> {
        match self {
            ClaimKind::Null => "null"@,
            ClaimKind::Bool => "boolean"@,
            ClaimKind::Number => "number"@,
            ClaimKind::String => "string"@,
            ClaimKind::Array => "array"@,
            ClaimKind::Object => "object"@,
        }
    }

    /// The name of this kind.
    pub fn name(&self) -> (name: &'static str)
        ensures
            name@ == self.name_spec(),
    {
        match self {
            ClaimKind::Null => "null",
            ClaimKind::Bool => "boolean",
            ClaimKind::Number => "number",
            ClaimKind::String => "string",
            ClaimKind::Array => "array",
            ClaimKind::Object => "object",
        }
    }
}

impl ClaimValue {
    /// The text that this value holds, if it is a string.
    pub fn as_text(&self) -> (found: Option<&String>)
        ensures
            match found {
                Some(text) => self@ == ValueModel::Text(text@),
                None => !(self@ is Text),
            },
    {
        match self {
            ClaimValue::String(text) => Some(text),
            _ => None,
        }
    }

    /// The decimal text of the number that this value holds, if it is one.
    pub fn as_number(&self) -> (found: Option<&String>)
        ensures
            match found {
                Some(text) => self@ == ValueModel::Number(text@),
                None => !(self@ is Number),
            },
    {
        match self {
            ClaimValue::Number(text) => Some(text),
            _ => None,
        }
    }

    /// The truth value that this value holds, if it is a boolean.
    pub fn as_bool(&self) -> (found: Option<bool>)
        ensures
            match found {
                Some(flag) => self@ == ValueModel::Bool(flag),
                None => !(self@ is Bool),
            },
    {
        match self {
            ClaimValue::Bool(flag) => Some(*flag),
            _ => None,
        }
    }

    /// The items that this value holds, if it is an array.
    pub fn as_array(&self) -> (found: Option<&Vec<ClaimValue>>)
        ensures
            match found {
                Some(items) => self@ matches ValueModel::List(list) && list.len() == items@.len()
                    && forall|i: int| 0 <= i < list.len() ==> list[i] == #[trigger] items@[i]@,
                None => !(self@ is List),
            },
    {
        match self {
            ClaimValue::Array(items) => Some(items),
            _ => None,
        }
    }

    /// The document that this value holds, if it is an object.
    pub fn as_object(&self) -> (found: Option<&ClaimDocument>)
        ensures
            match found {
                Some(doc) => self@ == ValueModel::Record(doc@),
                None => !(self@ is Record),
            },
    {
        match self {
            ClaimValue::Object(doc) => Some(doc),
            _ => None,
        }
    }

    /// The document that this value is, or else the kind of the value.
    pub fn into_document(self) -> (outcome: Result<ClaimDocument, ClaimKind>)
        ensures
            match outcome {
                Ok(doc) => self@ == ValueModel::Record(doc@),
                Err(kind) => !(self@ is Record) && kind == self@.kind(),
            },
    {
        match self {
            ClaimValue::Object(doc) => Ok(doc),
            other => Err(other.kind()),
        }
    }

    /// The kind of this value.
    pub fn kind(&self) -> (kind: ClaimKind)
        ensures
            kind == self@.kind(),
    {
        match self {
            ClaimValue::Null => ClaimKind::Null,
            ClaimValue::Bool(_) => ClaimKind::Bool,
            ClaimValue::Number(_) => ClaimKind::Number,
            ClaimValue::String(_) => ClaimKind::String,
            ClaimValue::Array(_) => ClaimKind::Array,
            ClaimValue::Object(_) => ClaimKind::Object,
        }
    }
}

impl Clone for ClaimValue {
    /// A copy that owns all that it holds.
    fn clone(&self) -> (copy: Self)
        ensures
            copy@ == self@,
        decreases self,
    {
        match self {
            ClaimValue::Null => ClaimValue::Null,
            ClaimValue::Bool(b) => ClaimValue::Bool(*b),
            ClaimValue::Number(n) => ClaimValue::Number(n.clone()),
            ClaimValue::String(s) => ClaimValue::String(s.clone()),
            ClaimValue::Array(items) => {
                let mut copies: Vec<ClaimValue> = Vec::new();
                let mut i: usize = 0;
                while i < items.len()
                    invariant
                        i <= items@.len(),
                        copies@.len() == i,
                        *self == ClaimValue::Array(*items),
                        forall|j: int| 0 <= j < i ==> copies@[j].model() == items@[j].model(),
                    decreases items@.len() - i,
                {
                    assert(decreases_to!(self => items@[i as int])) by {
                        assert(decreases_to!(*self => self->Array_0));
                        assert(self->Array_0 == *items);
                        assert(decreases_to!(*items => items@));
                        assert(decreases_to!(items@ => items@[i as int]));
                    }
                    let copy = items[i].clone();
                    copies.push(copy);
                    i += 1;
                }
                let copy = ClaimValue::Array(copies);
                assert(copy.model()->List_0 =~= self.model()->List_0);
                copy
            },
            ClaimValue::Object(doc) => ClaimValue::Object(doc.clone()),
        }
    }
}

impl Clone for ClaimDocument {
    /// A copy that owns all that it holds.
    fn clone(&self) -> (copy: Self)
        ensures
            copy@ == self@,
        decreases self,
    {
        proof {
            use_type_invariant(self);
        }
        let mut entries: Vec<(String, ClaimValue)> = Vec::new();
        let mut i: usize = 0;
        while i < self.entries.len()
            invariant
                i <= self.entries@.len(),
                entries@.len() == i,
                forall|j: int|
                    0 <= j < i ==> (#[trigger] entries@[j]).0@ == self.entries@[j].0@
                        && entries@[j].1.model() == self.entries@[j].1.model(),
            decreases self.entries@.len() - i,
        {
            assert(decreases_to!(self => self.entries@[i as int].1)) by {
                assert(decreases_to!(self => self.entries));
                assert(decreases_to!(self.entries => self.entries@));
                assert(decreases_to!(self.entries@ => self.entries@[i as int]));
                assert(decreases_to!(self.entries@[i as int] => self.entries@[i as int].1));
            }
            let name = self.entries[i].0.clone();
            let value = self.entries[i].1.clone();
            entries.push((name, value));
            i += 1;
        }
        assert((ClaimDocument { entries }).model() =~= self.model());
        let copy = ClaimDocument { entries };
        copy
    }
}

} // verus!
