//! What the tools take.

use vstd::prelude::*;

verus! {

/// An address to open in a new tab.
#[derive(Debug)]
pub struct NavigateArgs {
    pub url: String,
}

/// A page.
#[derive(Debug)]
pub struct PageArg {
    pub page: String,
}

/// A handle of the latest snapshot of a page.
#[derive(Debug)]
pub struct RefArgs {
    pub page: String,
    pub ref_: String,
}

/// A text to type into an element, in place of what it holds or behind it.
#[derive(Debug)]
pub struct TypeArgs {
    pub page: String,
    pub ref_: String,
    pub text: String,
    pub clear: bool,
}

/// A key to press: a name such as `Enter`, or a character.
#[derive(Debug)]
pub struct PressArgs {
    pub page: String,
    pub key: String,
}

/// An expression to evaluate in a page.
#[derive(Debug)]
pub struct EvalArgs {
    pub page: String,
    pub expression: String,
}

/// An option to select in a dropdown, by its value.
#[derive(Debug)]
pub struct SelectArgs {
    pub page: String,
    pub ref_: String,
    pub value: String,
}

/// A text or a selector to wait for, and for how many milliseconds.
#[derive(Debug)]
pub struct WaitArgs {
    pub page: String,
    pub text: Option<String>,
    pub selector: Option<String>,
    pub timeout_ms: Option<u64>,
}

/// Which requests of a page to list: those whose address holds a text, and how
/// many at most.
#[derive(Debug)]
pub struct NetArgs {
    pub page: String,
    pub filter: Option<String>,
    pub limit: Option<usize>,
}

/// Patterns of addresses to block.
#[derive(Debug)]
pub struct BlockArgs {
    pub page: String,
    pub patterns: Vec<String>,
}

/// A file to save to or to load from.
#[derive(Debug)]
pub struct StorageArgs {
    pub page: String,
    pub path: String,
}

/// A field of a form and what to fill in.
#[derive(Debug)]
pub struct FormField {
    pub ref_: String,
    pub value: String,
}

/// Fields of a form to fill.
#[derive(Debug)]
pub struct FillFormArgs {
    pub page: String,
    pub fields: Vec<FormField>,
}

/// A field of a form, by what it says.
pub struct FieldView {
    pub handle: Seq<char>,
    pub value: Seq<char>,
}

impl View for FormField {
    type V = FieldView;

    open spec fn view(&self) -> FieldView {
        FieldView { handle: self.ref_@, value: self.value@ }
    }
}

/// Fields of a form, by what they say.
pub open spec fn fields_view(fields: Seq<FormField>) -> Seq<FieldView> {
    fields.map_values(|f: FormField| f@)
}

/// What an optional text says.
pub open spec fn option_view(s: Option<String>) -> Option<Seq<char>> {
    match s {
        Some(s) => Some(s@),
        None => None,
    }
}

/// The fields of a form say what they hold, each in its place, and an optional
/// text says its text.
pub proof fn arguments_say_what_they_hold(fields: Seq<FormField>, i: int, s: String)
    ensures
        fields_view(fields).len() == fields.len(),
        0 <= i < fields.len() ==> fields_view(fields)[i].handle == fields[i].ref_@,
        0 <= i < fields.len() ==> fields_view(fields)[i].value == fields[i].value@,
        option_view(None) is None,
        option_view(Some(s)) == Some(s@),
{
}

} // verus!
