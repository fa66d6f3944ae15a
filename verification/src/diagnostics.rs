//! The texts of the diagnostics.

use vstd::prelude::*;
use vstd::string::*;
use crate::lexer::LexError;
use crate::llvm::{CodegenError, CodegenErrorView};
use crate::parser::{ParseError, ParseErrorKind};
use crate::semantizer::{SemError, SemErrorKind, SemErrorKindView, SemErrorView};
use crate::store::{StoreError, StoreErrorView};
use crate::str_info::StrInfo;
use crate::text::{decimal, push_decimal};

verus! {

/// `text` behind the line and the column of `info`, as in `(3, 14): text`.
pub open spec fn located(info: StrInfo, text: Seq<char>) -> Seq<char> {
    "("@ + decimal(info.line as nat) + ", "@ + decimal(info.column as nat) + "): "@ + text
}

/// `text`, a line feed, the line of `info` in the source `cs`, and the underline
/// that marks `info` in it.
pub open spec fn with_line(text: Seq<char>, info: StrInfo, cs: Seq<char>) -> Seq<char> {
    text.push('\n') + info.spec_target_part_of_line(cs)
}

/// `text` with `name` behind it in backquotes.
pub open spec fn naming(text: Seq<char>, name: Seq<char>) -> Seq<char> {
    text + "`"@ + name + "`"@
}

pub fn located_message(info: &StrInfo, text: &str) -> (s: String)
    ensures
        s@ == located(*info, text@),
{
    let mut s = String::from_str("(");
    push_decimal(&mut s, info.line);
    s.append(", ");
    push_decimal(&mut s, info.column);
    s.append("): ");
    s.append(text);
    s
}

pub fn message_with_line(text: String, info: &StrInfo, source: &Vec<char>) -> (s: String)
    ensures
        s@ == with_line(text@, *info, source@),
{
    let mut s = text;
    s.push('\n');
    let part = info.target_part_of_line(source);
    s.append(part.as_str());
    s
}

fn naming_message(text: &str, name: &String) -> (s: String)
    ensures
        s@ == naming(text@, name@),
{
    let mut s = String::from_str(text);
    s.append("`");
    s.append(name.as_str());
    s.append("`");
    s
}

impl LexError {
    pub open spec fn spec_message(self) -> Seq<char> {
        located(self.info, "Invalid token found: `"@.push(self.found) + "`"@)
    }

    /// The text of the diagnostic.
    pub fn message(&self) -> (s: String)
        ensures
            s@ == self.spec_message(),
    {
        let mut text = String::from_str("Invalid token found: `");
        text.push(self.found);
        text.append("`");
        located_message(&self.info, text.as_str())
    }
}

impl ParseErrorKind {
    pub open spec fn spec_text(self) -> Seq<char> {
        match self {
            ParseErrorKind::InvalidTopDef => "Invalid top-level definition:"@,
            ParseErrorKind::SemicolonRequired => "`;` required:"@,
            ParseErrorKind::ExprRequired => "Expression required:"@,
            ParseErrorKind::EqualRequired => "`=` required:"@,
            ParseErrorKind::LeftFnDefRequired => "Left function definition required:"@,
            ParseErrorKind::TypeTermRequired => "Type term required:"@,
            ParseErrorKind::RParenRequired => "`)` required:"@,
            ParseErrorKind::TermRequired => "Term required:"@,
            ParseErrorKind::InvalidPrefixOp => "Invalid prefix operator:"@,
            ParseErrorKind::InvalidInfixOp => "Invalid infix operator:"@,
        }
    }

    pub fn text(&self) -> (s: String)
        ensures
            s@ == self.spec_text(),
    {
        match self {
            ParseErrorKind::InvalidTopDef => String::from_str("Invalid top-level definition:"),
            ParseErrorKind::SemicolonRequired => String::from_str("`;` required:"),
            ParseErrorKind::ExprRequired => String::from_str("Expression required:"),
            ParseErrorKind::EqualRequired => String::from_str("`=` required:"),
            ParseErrorKind::LeftFnDefRequired => String::from_str(
                "Left function definition required:",
            ),
            ParseErrorKind::TypeTermRequired => String::from_str("Type term required:"),
            ParseErrorKind::RParenRequired => String::from_str("`)` required:"),
            ParseErrorKind::TermRequired => String::from_str("Term required:"),
            ParseErrorKind::InvalidPrefixOp => String::from_str("Invalid prefix operator:"),
            ParseErrorKind::InvalidInfixOp => String::from_str("Invalid infix operator:"),
        }
    }
}

impl ParseError {
    pub open spec fn spec_message(self) -> Seq<char> {
        located(self.info, self.kind.spec_text())
    }

    /// The text of the diagnostic.
    pub fn message(&self) -> (s: String)
        ensures
            s@ == self.spec_message(),
    {
        let text = self.kind.text();
        located_message(&self.info, text.as_str())
    }

    /// The text of the diagnostic, and below it the line of the source with the place
    /// of the error marked.
    pub fn report(&self, source: &Vec<char>) -> (s: String)
        ensures
            s@ == with_line(self.spec_message(), self.info, source@),
    {
        message_with_line(self.message(), &self.info, source)
    }
}

impl SemErrorKindView {
    pub open spec fn text(self) -> Seq<char> {
        match self {
            SemErrorKindView::UnknownType(name) => naming("Unknown type: "@, name),
            SemErrorKindView::UnknownFunction(name) => naming("Unknown function: "@, name),
            SemErrorKindView::DuplicateFunction(name) => naming(
                "Duplicate function definitions: "@,
                name,
            ),
            SemErrorKindView::ArgCountMismatch(name) => naming(
                "Different argument count between type annotation and function definition: "@,
                name,
            ),
            SemErrorKindView::BodyTypeMismatch(name) => naming(
                "Different type between type annotation and function body: "@,
                name,
            ),
            SemErrorKindView::NotAFunction => "Cannot get a out_ty."@,
            SemErrorKindView::TypeTooLarge => "Too many arguments in a function type."@,
            SemErrorKindView::Store(e) => e.message(),
        }
    }
}

impl SemErrorKind {
    pub fn text(&self) -> (s: String)
        ensures
            s@ == self.deep_view().text(),
    {
        match self {
            SemErrorKind::UnknownType(name) => naming_message("Unknown type: ", name),
            SemErrorKind::UnknownFunction(name) => naming_message("Unknown function: ", name),
            SemErrorKind::DuplicateFunction(name) => naming_message(
                "Duplicate function definitions: ",
                name,
            ),
            SemErrorKind::ArgCountMismatch(name) => naming_message(
                "Different argument count between type annotation and function definition: ",
                name,
            ),
            SemErrorKind::BodyTypeMismatch(name) => naming_message(
                "Different type between type annotation and function body: ",
                name,
            ),
            SemErrorKind::NotAFunction => String::from_str("Cannot get a out_ty."),
            SemErrorKind::TypeTooLarge => String::from_str("Too many arguments in a function type."),
            SemErrorKind::Store(e) => e.message(),
        }
    }
}

impl SemErrorView {
    pub open spec fn message(self) -> Seq<char> {
        located(self.info, self.kind.text())
    }
}

impl SemError {
    /// The text of the diagnostic.
    pub fn message(&self) -> (s: String)
        ensures
            s@ == self.deep_view().message(),
    {
        let text = self.kind.text();
        located_message(&self.info, text.as_str())
    }

    /// The text of the diagnostic, and below it the line of the source with the place
    /// of the error marked.
    pub fn report(&self, source: &Vec<char>) -> (s: String)
        ensures
            s@ == with_line(self.deep_view().message(), self.info, source@),
    {
        message_with_line(self.message(), &self.info, source)
    }
}

impl CodegenErrorView {
    pub open spec fn message(self) -> Seq<char> {
        match self {
            CodegenErrorView::NullPointer => "Pointer is null."@,
            CodegenErrorView::UnknownIdentifier => "Unknown identifier."@,
            CodegenErrorView::DuplicateIdentifier => "Duplicate identifier name."@,
            CodegenErrorView::FunctionRedefined => "Function cannot be redefined."@,
            CodegenErrorView::InvalidFunction => "Invalid function."@,
            CodegenErrorView::ArgCountMismatch => "Argument names are missing."@,
            CodegenErrorView::Store(e) => e.message(),
        }
    }
}

impl CodegenError {
    /// The text of the diagnostic.
    pub fn message(&self) -> (s: String)
        ensures
            s@ == self.deep_view().message(),
    {
        match self {
            CodegenError::NullPointer => String::from_str("Pointer is null."),
            CodegenError::UnknownIdentifier => String::from_str("Unknown identifier."),
            CodegenError::DuplicateIdentifier => String::from_str("Duplicate identifier name."),
            CodegenError::FunctionRedefined => String::from_str("Function cannot be redefined."),
            CodegenError::InvalidFunction => String::from_str("Invalid function."),
            CodegenError::ArgCountMismatch => String::from_str("Argument names are missing."),
            CodegenError::Store(e) => e.message(),
        }
    }
}

} // verus!
