//! Errors of XSD schema validation of BPMN documents, and their messages.
//! (The validation itself runs the `libxml` bindings outside this library.)

use vstd::prelude::*;

verus! {

/// Why XSD validation of a BPMN document failed.
pub enum XsdValidationError {
    /// The file could not be read.
    FileReadError(String),
    /// The XML could not be parsed.
    XmlParseError(String),
    /// The XSD schema could not be parsed.
    SchemaParseError(Vec<String>),
    /// The XML does not conform to the schema.
    ValidationError(Vec<String>),
}

/// Abstract value of an [`XsdValidationError`].
pub enum XsdValidationErrorModel {
    FileReadError(Seq<char>),
    XmlParseError(Seq<char>),
    SchemaParseError(Seq<Seq<char>>),
    ValidationError(Seq<Seq<char>>),
}

impl View for XsdValidationError {
    type V = XsdValidationErrorModel;

    open spec fn view(&self) -> XsdValidationErrorModel {
        match self {
            XsdValidationError::FileReadError(m) => XsdValidationErrorModel::FileReadError(m@),
            XsdValidationError::XmlParseError(m) => XsdValidationErrorModel::XmlParseError(m@),
            XsdValidationError::SchemaParseError(es) => XsdValidationErrorModel::SchemaParseError(
                es.deep_view(),
            ),
            XsdValidationError::ValidationError(es) => XsdValidationErrorModel::ValidationError(
                es.deep_view(),
            ),
        }
    }
}

/// Each message as a `  - ` item, one directly after the other.
pub open spec fn bullet_items(es: Seq<Seq<char>>) -> Seq<char>
    decreases es.len(),
{
    if es.len() == 0 {
        Seq::empty()
    } else {
        bullet_items(es.drop_last()) + "  - "@ + es.last()
    }
}

/// The human-readable text of an XSD validation error.
pub open spec fn xsd_error_text(e: XsdValidationErrorModel) -> Seq<char> {
    match e {
        XsdValidationErrorModel::FileReadError(m) => "File read error: "@ + m,
        XsdValidationErrorModel::XmlParseError(m) => "XML parse error: "@ + m,
        XsdValidationErrorModel::SchemaParseError(es) => "Schema parse errors:\n"@ + bullet_items(es),
        XsdValidationErrorModel::ValidationError(es) => "XSD validation errors:\n"@ + bullet_items(es),
    }
}

/// `head` followed by the messages of `errors` as items.
fn with_items(head: &str, errors: &Vec<String>) -> (r: String)
    ensures
        r@ == head@ + bullet_items(errors.deep_view()),
{
    let mut r = String::from_str(head);
    let ghost es = errors.deep_view();
    let mut i: usize = 0;
    assert(es.take(0) =~= Seq::<Seq<char>>::empty());
    while i < errors.len()
        invariant
            i <= errors.len(),
            es == errors.deep_view(),
            r@ == head@ + bullet_items(es.take(i as int)),
        decreases errors.len() - i,
    {
        r.append("  - ");
        r.append(errors[i].as_str());
        assert(es.take(i + 1).drop_last() =~= es.take(i as int));
        i = i + 1;
    }
    assert(es.take(i as int) =~= es);
    r
}

impl XsdValidationError {
    /// The human-readable text of the error.
    pub fn message(&self) -> (r: String)
        ensures
            r@ == xsd_error_text(self@),
    {
        let r = match self {
            XsdValidationError::FileReadError(m) => {
                let mut r = String::from_str("File read error: ");
                r.append(m.as_str());
                r
            },
            XsdValidationError::XmlParseError(m) => {
                let mut r = String::from_str("XML parse error: ");
                r.append(m.as_str());
                r
            },
            XsdValidationError::SchemaParseError(es) => with_items("Schema parse errors:\n", es),
            XsdValidationError::ValidationError(es) => with_items("XSD validation errors:\n", es),
        };
        assert(r@ == xsd_error_text(self@));
        r
    }
}

} // verus!
