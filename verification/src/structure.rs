//! Decoding a Matlab struct: a group whose class attribute reads `struct`,
//! with its field names listed by a second attribute.
//!
//! The decode is a small state machine. It never reads the store itself: it
//! says which read comes next, and is handed what the store answered.

use vstd::prelude::*;
use vstd::string::StringExecFns;
use crate::error::{Error, ErrorView, StoreError, StoreErrorView};

verus! {

/// Number of characters that the class attribute can hold.
pub const CLASS_CAPACITY: usize = 256;

/// The field names of a Matlab struct, in the order the store lists them.
#[derive(Debug, Clone, PartialEq, Eq)]
pub struct MatStruct {
    pub field_names: Vec<String>,
}

impl View for MatStruct {
    type V = Seq<Seq<char>>;

    open spec fn view(&self) -> Seq<Seq<char>> {
        self.field_names.deep_view()
    }
}

impl MatStruct {
    /// Every field has a name of at least one character.
    pub open spec fn wf(&self) -> bool {
        all_named(self@)
    }
}

/// The field names of a stored field list, one per field and in its order:
/// each is the pieces it is stored as, one after the other.
pub open spec fn field_names(fields: Seq<Seq<Seq<char>>>) -> Seq<Seq<char>> {
    fields.map_values(|pieces: Seq<Seq<char>>| pieces.flatten())
}

/// No name of the list is empty.
pub open spec fn all_named(names: Seq<Seq<char>>) -> bool {
    forall|i: int| 0 <= i < names.len() ==> (#[trigger] names[i]).len() > 0
}

/// A read that the decode asks of the store.
#[derive(Debug, Clone, Copy, PartialEq, Eq)]
pub enum Request {
    /// Open the group of the decoded name.
    Group,
    /// Read the group's class attribute, a fixed-length ASCII scalar.
    Class,
    /// Read the group's field list, an array of variable-length arrays of
    /// one-character ASCII strings.
    Fields,
}

impl Request {
    /// The name of the attribute to read; a group is opened by the decoded name.
    pub open spec fn attribute_spec(self) -> Option<Seq<char>> {
        match self {
            Request::Group => None,
            Request::Class => Some("MATLAB_class"@),
            Request::Fields => Some("MATLAB_fields"@),
        }
    }

    /// The name of the attribute to read, if the request is for one.
    pub fn attribute(&self) -> (name: Option<&'static str>)
        ensures
            match name {
                Some(n) => self.attribute_spec() == Some(n@),
                None => self.attribute_spec().is_none(),
            },
    {
        match self {
            Request::Group => None,
            Request::Class => Some("MATLAB_class"),
            Request::Fields => Some("MATLAB_fields"),
        }
    }
}

/// What the store answered to a [`Request`].
#[derive(Debug, PartialEq, Eq)]
pub enum Answer {
    /// Whether the group could be opened.
    Group(bool),
    /// The text of the class attribute, or why it could not be read.
    Class(Result<String, StoreError>),
    /// The field list, each field as its pieces, or why it could not be read.
    Fields(Result<Vec<Vec<String>>, StoreError>),
}

/// Mathematical value of an [`Answer`].
pub enum AnswerView {
    Group(bool),
    Class(Result<Seq<char>, StoreErrorView>),
    Fields(Result<Seq<Seq<Seq<char>>>, StoreErrorView>),
}

impl View for Answer {
    type V = AnswerView;

    open spec fn view(&self) -> AnswerView {
        match self {
            Answer::Group(found) => AnswerView::Group(*found),
            Answer::Class(Ok(class)) => AnswerView::Class(Ok(class@)),
            Answer::Class(Err(e)) => AnswerView::Class(Err(e@)),
            Answer::Fields(Ok(fields)) => AnswerView::Fields(Ok(fields.deep_view())),
            Answer::Fields(Err(e)) => AnswerView::Fields(Err(e@)),
        }
    }
}

/// The state of one struct decode.
#[derive(Debug, PartialEq, Eq)]
pub enum StructDecoder {
    /// The group of this name has yet to be opened.
    Locate(String),
    /// The group is open; its class has yet to be read.
    Classify,
    /// The class reads `struct`; the field list has yet to be read.
    Enumerate,
    /// The decode has ended, with the struct or with the reason it failed.
    Done(Result<MatStruct, Error>),
}

/// Mathematical value of a [`StructDecoder`].
pub enum DecoderView {
    Locate(Seq<char>),
    Classify,
    Enumerate,
    Done(Result<Seq<Seq<char>>, ErrorView>),
}

impl View for StructDecoder {
    type V = DecoderView;

    open spec fn view(&self) -> DecoderView {
        match self {
            StructDecoder::Locate(name) => DecoderView::Locate(name@),
            StructDecoder::Classify => DecoderView::Classify,
            StructDecoder::Enumerate => DecoderView::Enumerate,
            StructDecoder::Done(Ok(s)) => DecoderView::Done(Ok(s@)),
            StructDecoder::Done(Err(e)) => DecoderView::Done(Err(e@)),
        }
    }
}

impl DecoderView {
    /// A decode that has ended with a struct has a name for every field.
    pub open spec fn wf(self) -> bool {
        self matches DecoderView::Done(Ok(names)) ==> all_named(names)
    }

    /// The read that this state waits for; none once the decode has ended.
    pub open spec fn request(self) -> Option<Request> {
        match self {
            DecoderView::Locate(_) => Some(Request::Group),
            DecoderView::Classify => Some(Request::Class),
            DecoderView::Enumerate => Some(Request::Fields),
            DecoderView::Done(_) => None,
        }
    }

    /// The state after an answer.
    ///
    /// A missing group ends the decode with the name asked for. A class that
    /// cannot be read, or a field list that cannot, ends it with the store's
    /// failure. A class other than `struct` ends it as not a struct, and so
    /// does a field without a name. An answer to a read that the state does
    /// not wait for changes nothing.
    pub open spec fn advance(self, answer: AnswerView) -> DecoderView {
        match (self, answer) {
            (DecoderView::Locate(name), AnswerView::Group(found)) => if found {
                DecoderView::Classify
            } else {
                DecoderView::Done(Err(ErrorView::Group(name)))
            },
            (DecoderView::Classify, AnswerView::Class(Ok(class))) => if class == "struct"@ {
                DecoderView::Enumerate
            } else {
                DecoderView::Done(Err(ErrorView::Struct))
            },
            (DecoderView::Classify, AnswerView::Class(Err(e))) => DecoderView::Done(
                Err(ErrorView::HDF5(e)),
            ),
            (DecoderView::Enumerate, AnswerView::Fields(Ok(fields))) => if all_named(
                field_names(fields),
            ) {
                DecoderView::Done(Ok(field_names(fields)))
            } else {
                DecoderView::Done(Err(ErrorView::Struct))
            },
            (DecoderView::Enumerate, AnswerView::Fields(Err(e))) => DecoderView::Done(
                Err(ErrorView::HDF5(e)),
            ),
            _ => self,
        }
    }
}

/// The outcome of a whole decode of the struct `name`, by what the store
/// answers to each read that the decode comes to ask for.
pub open spec fn structure_outcome(
    name: Seq<char>,
    found: bool,
    class: Result<Seq<char>, StoreErrorView>,
    fields: Result<Seq<Seq<Seq<char>>>, StoreErrorView>,
) -> Result<Seq<Seq<char>>, ErrorView> {
    if !found {
        Err(ErrorView::Group(name))
    } else {
        match class {
            Err(e) => Err(ErrorView::HDF5(e)),
            Ok(class) => if class != "struct"@ {
                Err(ErrorView::Struct)
            } else {
                match fields {
                    Err(e) => Err(ErrorView::HDF5(e)),
                    Ok(fields) => if all_named(field_names(fields)) {
                        Ok(field_names(fields))
                    } else {
                        Err(ErrorView::Struct)
                    },
                }
            },
        }
    }
}

/// A decode that is handed the answers to its three reads, in their order,
/// has ended, and with the outcome that the answers call for.
pub proof fn lemma_decode_ends(
    name: Seq<char>,
    found: bool,
    class: Result<Seq<char>, StoreErrorView>,
    fields: Result<Seq<Seq<Seq<char>>>, StoreErrorView>,
)
    ensures
        DecoderView::Locate(name).advance(AnswerView::Group(found)).advance(
            AnswerView::Class(class),
        ).advance(AnswerView::Fields(fields)) == DecoderView::Done(
            structure_outcome(name, found, class, fields),
        ),
{
}

/// A struct asked for by a name that the store does not have fails as a
/// missing group that carries exactly that name.
pub proof fn lemma_missing_group(name: Seq<char>)
    ensures
        DecoderView::Locate(name).advance(AnswerView::Group(false)) == DecoderView::Done(
            Err(ErrorView::Group(name)),
        ),
{
}

/// A group whose class reads anything but `struct` is not a struct, and no
/// later answer changes that: its field list is never looked at.
pub proof fn lemma_class_guard(class: Seq<char>, later: AnswerView)
    requires
        class != "struct"@,
    ensures
        DecoderView::Classify.advance(AnswerView::Class(Ok(class))) == DecoderView::Done(
            Err(ErrorView::Struct),
        ),
        DecoderView::Classify.advance(AnswerView::Class(Ok(class))).advance(later)
            == DecoderView::Done(Err(ErrorView::Struct)),
{
}

/// The names of a struct are those of the stored field list, as many and in
/// the same order, each the concatenation of its pieces and nothing else.
pub proof fn lemma_field_order(fields: Seq<Seq<Seq<char>>>)
    requires
        all_named(field_names(fields)),
    ensures
        DecoderView::Enumerate.advance(AnswerView::Fields(Ok(fields))) == DecoderView::Done(
            Ok(field_names(fields)),
        ),
        field_names(fields).len() == fields.len(),
        forall|i: int|
            0 <= i < fields.len() ==> (#[trigger] field_names(fields)[i]) == fields[i].flatten(),
{
}

/// The state after an answer depends on what the answer holds and on nothing
/// else: the same answer, given again, leads to the same state.
pub proof fn lemma_advance_repeatable(state: StructDecoder, first: Answer, second: Answer)
    requires
        first@ == second@,
    ensures
        state@.advance(first@) == state@.advance(second@),
{
}

/// Joins the pieces of one field name.
pub fn join_pieces(pieces: &Vec<String>) -> (name: String)
    ensures
        name@ == pieces.deep_view().flatten(),
{
    let mut name = String::new();
    let mut k: usize = 0;
    while k < pieces.len()
        invariant
            k <= pieces.len(),
            name@ == pieces.deep_view().take(k as int).flatten(),
        decreases pieces.len() - k,
    {
        proof {
            let head = pieces.deep_view().take(k as int);
            assert(pieces.deep_view().take(k + 1) =~= head.push(pieces@[k as int]@));
            head.lemma_flatten_push(pieces@[k as int]@);
        }
        name.append(pieces[k].as_str());
        k += 1;
    }
    proof {
        assert(pieces.deep_view().take(k as int) =~= pieces.deep_view());
    }
    name
}

/// Joins every field of a stored field list into its name, keeping the order.
/// Gives nothing when a field has no name.
pub fn join_fields(fields: &Vec<Vec<String>>) -> (names: Option<Vec<String>>)
    ensures
        names.is_some() == all_named(field_names(fields.deep_view())),
        names matches Some(n) ==> n.deep_view() == field_names(fields.deep_view()),
{
    let mut names: Vec<String> = Vec::new();
    let mut k: usize = 0;
    while k < fields.len()
        invariant
            k <= fields.len(),
            names.deep_view() =~= field_names(fields.deep_view().take(k as int)),
            all_named(names.deep_view()),
        decreases fields.len() - k,
    {
        let name = join_pieces(&fields[k]);
        if name.as_str().is_empty() {
            proof {
                assert(field_names(fields.deep_view())[k as int].len() == 0);
            }
            return None;
        }
        proof {
            assert(fields.deep_view().take(k + 1) =~= fields.deep_view().take(k as int).push(
                fields@[k as int].deep_view(),
            ));
        }
        let ghost before = names.deep_view();
        let ghost text = name@;
        names.push(name);
        proof {
            assert(names.deep_view() =~= before.push(text));
        }
        k += 1;
    }
    proof {
        assert(fields.deep_view().take(k as int) =~= fields.deep_view());
    }
    Some(names)
}

impl StructDecoder {
    /// Starts the decode of the struct stored under `name`.
    pub fn new(name: &str) -> (decoder: StructDecoder)
        ensures
            decoder@ == DecoderView::Locate(name@),
            decoder@.wf(),
    {
        StructDecoder::Locate(String::from_str(name))
    }

    /// The read to perform next; none once the decode has ended.
    pub fn request(&self) -> (next: Option<Request>)
        ensures
            next == self@.request(),
    {
        match self {
            StructDecoder::Locate(_) => Some(Request::Group),
            StructDecoder::Classify => Some(Request::Class),
            StructDecoder::Enumerate => Some(Request::Fields),
            StructDecoder::Done(_) => None,
        }
    }

    /// Takes the store's answer and moves to the next state.
    pub fn advance(self, answer: Answer) -> (next: StructDecoder)
        ensures
            next@ == self@.advance(answer@),
            self@.wf() ==> next@.wf(),
    {
        match (self, answer) {
            (StructDecoder::Locate(name), Answer::Group(found)) => {
                if found {
                    StructDecoder::Classify
                } else {
                    StructDecoder::Done(Err(Error::Group(name)))
                }
            },
            (StructDecoder::Classify, Answer::Class(Ok(class))) => {
                let expected = String::from_str("struct");
                if class == expected {
                    StructDecoder::Enumerate
                } else {
                    StructDecoder::Done(Err(Error::Struct))
                }
            },
            (StructDecoder::Classify, Answer::Class(Err(e))) => StructDecoder::Done(
                Err(Error::HDF5(e)),
            ),
            (StructDecoder::Enumerate, Answer::Fields(Ok(fields))) => {
                match join_fields(&fields) {
                    Some(field_names) => StructDecoder::Done(Ok(MatStruct { field_names })),
                    None => StructDecoder::Done(Err(Error::Struct)),
                }
            },
            (StructDecoder::Enumerate, Answer::Fields(Err(e))) => StructDecoder::Done(
                Err(Error::HDF5(e)),
            ),
            (state, _) => state,
        }
    }

    /// The outcome of the decode, once it has ended.
    pub fn finish(self) -> (outcome: Option<Result<MatStruct, Error>>)
        ensures
            match outcome {
                Some(Ok(s)) => self@ == DecoderView::Done(Ok(s@)),
                Some(Err(e)) => self@ == DecoderView::Done(Err(e@)),
                None => self@.request().is_some(),
            },
            self@.wf() ==> (outcome matches Some(Ok(s)) ==> s.wf()),
    {
        match self {
            StructDecoder::Done(outcome) => Some(outcome),
            _ => None,
        }
    }
}

} // verus!
