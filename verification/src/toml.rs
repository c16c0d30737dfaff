//! Flat settings documents: what a key holds, read with a default.

use vstd::prelude::*;

verus! {

/// An editable settings document.
#[verifier::external_type_specification]
#[verifier::external_body]
pub struct ExDocumentMut(toml_edit::DocumentMut);

/// Why a text is no settings document.
#[verifier::external_type_specification]
#[verifier::external_body]
pub struct ExTomlError(toml_edit::TomlError);

/// What a key of a document holds, as far as the library tells values apart.
pub enum Entry {
    Text(String),
    Integer(i64),
    Boolean(bool),
    /// A value of another type: a float, a date, an array, an inline table.
    OtherValue,
    /// A table or an array of tables.
    NotAValue,
}

/// An entry with its text as a sequence of characters.
pub enum EntryView {
    Text(Seq<char>),
    Integer(i64),
    Boolean(bool),
    OtherValue,
    NotAValue,
}

impl View for Entry {
    type V = EntryView;

    open spec fn view(&self) -> EntryView {
        match self {
            Entry::Text(s) => EntryView::Text(s@),
            Entry::Integer(n) => EntryView::Integer(*n),
            Entry::Boolean(b) => EntryView::Boolean(*b),
            Entry::OtherValue => EntryView::OtherValue,
            Entry::NotAValue => EntryView::NotAValue,
        }
    }
}

/// Why a document could not be loaded or saved.
#[derive(Debug)]
pub enum FileError {
    /// The file could not be read or written.
    IoError(crate::pe_format::IoErrorKind),
    /// The file holds no settings document.
    TomlError(toml_edit::TomlError),
}

/// Why a key of a document could not be read.
#[derive(Debug)]
pub enum ValueError {
    /// The key holds a value of another type than the one asked for.
    WrongTypeError(String, String),
    /// The key holds a table, not a value.
    NotAValueError(String),
    /// The key is absent, or what it names is.
    DoesNotExist(String),
}

/// A read error with its texts as sequences of characters.
pub enum ValueErrorView {
    WrongTypeError(Seq<char>, Seq<char>),
    NotAValueError(Seq<char>),
    DoesNotExist(Seq<char>),
}

impl View for ValueError {
    type V = ValueErrorView;

    open spec fn view(&self) -> ValueErrorView {
        match self {
            ValueError::WrongTypeError(key, wanted) => ValueErrorView::WrongTypeError(key@, wanted@),
            ValueError::NotAValueError(key) => ValueErrorView::NotAValueError(key@),
            ValueError::DoesNotExist(key) => ValueErrorView::DoesNotExist(key@),
        }
    }
}

/// The top-level keys of a document, each with what it holds.
pub uninterp spec fn document_entries(document: toml_edit::DocumentMut) -> Map<Seq<char>, EntryView>;

/// What the parser reads from a text: the top-level keys of the document
/// that the text is, each with what it holds; nothing where the text is no
/// document.
pub uninterp spec fn parsed_entries(text: Seq<char>) -> Option<Map<Seq<char>, EntryView>>;

/// The text that a document is written out as.
pub uninterp spec fn document_text(document: toml_edit::DocumentMut) -> Seq<char>;

/// The entries of an empty document.
pub open spec fn no_entries() -> Map<Seq<char>, EntryView> {
    Map::empty()
}

/// An empty document.
///
/// Trusted: calls `toml_edit::DocumentMut::new`, whose document has an empty
/// root table.
#[verifier::external_body]
pub(crate) fn new_document() -> (document: toml_edit::DocumentMut)
    ensures
        document_entries(document) == no_entries(),
{
    toml_edit::DocumentMut::new()
}

/// Parses a document.
///
/// Trusted: calls `str::parse` for `toml_edit::DocumentMut`, which reads
/// nothing but the text. The result is named, not described: the document
/// holds what the parser reads from this text, and there is an error where
/// the parser reads no document from it. Which texts those are, and which
/// error comes, is not said.
#[verifier::external_body]
pub(crate) fn parse_document(text: &str) -> (document: Result<
    toml_edit::DocumentMut,
    toml_edit::TomlError,
>)
    ensures
        match document {
            Ok(d) => parsed_entries(text@) == Some(document_entries(d)),
            Err(_) => parsed_entries(text@) is None,
        },
{
    text.parse::<toml_edit::DocumentMut>()
}

/// Writes a document out as text.
///
/// Trusted: calls `to_string` of `toml_edit::DocumentMut`, which writes the
/// document out with the spaces and comments it carries. The result is
/// named, not described: it is the text that the crate writes for this
/// document. That reading the text gives the document back is not claimed.
#[verifier::external_body]
pub(crate) fn render_document(document: &toml_edit::DocumentMut) -> (text: String)
    ensures
        text@ == document_text(*document),
{
    document.to_string()
}

/// Looks a top-level key up.
///
/// Trusted: calls `as_table` of `toml_edit::DocumentMut` and `get` of its
/// root table, which finds the item stored under exactly this key, then tells
/// the kinds of items and values apart and copies a text, an integer or a
/// boolean out.
#[verifier::external_body]
pub(crate) fn get_entry(document: &toml_edit::DocumentMut, key: &str) -> (entry: Option<Entry>)
    ensures
        match entry {
            Some(e) => document_entries(*document).dom().contains(key@) && document_entries(
                *document,
            )[key@] == e@,
            None => !document_entries(*document).dom().contains(key@),
        },
{
    match document.as_table().get(key) {
        None => None,
        Some(toml_edit::Item::Value(toml_edit::Value::String(s))) => Some(Entry::Text(s.value().clone())),
        Some(toml_edit::Item::Value(toml_edit::Value::Integer(n))) => Some(Entry::Integer(*n.value())),
        Some(toml_edit::Item::Value(toml_edit::Value::Boolean(b))) => Some(Entry::Boolean(*b.value())),
        Some(toml_edit::Item::Value(_)) => Some(Entry::OtherValue),
        Some(_) => Some(Entry::NotAValue),
    }
}

/// Stores a text under a top-level key.
///
/// Trusted: assigns `toml_edit::value(..)` of a `String` through `IndexMut` of
/// `toml_edit::DocumentMut`, which inserts the key into the root table where
/// it is absent and replaces what it holds where it is present; no other key
/// changes.
#[verifier::external_body]
pub(crate) fn store_text(document: &mut toml_edit::DocumentMut, key: &str, value: String)
    ensures
        document_entries(*final(document)) == document_entries(*old(document)).insert(
            key@,
            EntryView::Text(value@),
        ),
{
    document[key] = toml_edit::value(value);
}

/// Stores an integer under a top-level key.
///
/// Trusted: assigns `toml_edit::value(..)` of an `i64` through `IndexMut` of
/// `toml_edit::DocumentMut`, as for a text.
#[verifier::external_body]
pub(crate) fn store_integer(document: &mut toml_edit::DocumentMut, key: &str, value: i64)
    ensures
        document_entries(*final(document)) == document_entries(*old(document)).insert(
            key@,
            EntryView::Integer(value),
        ),
{
    document[key] = toml_edit::value(value);
}

/// Stores a boolean under a top-level key.
///
/// Trusted: assigns `toml_edit::value(..)` of a `bool` through `IndexMut` of
/// `toml_edit::DocumentMut`, as for a text.
#[verifier::external_body]
pub(crate) fn store_boolean(document: &mut toml_edit::DocumentMut, key: &str, value: bool)
    ensures
        document_entries(*final(document)) == document_entries(*old(document)).insert(
            key@,
            EntryView::Boolean(value),
        ),
{
    document[key] = toml_edit::value(value);
}

/// Stores a text under a top-level key.
pub fn set_text(document: &mut toml_edit::DocumentMut, key: &str, value: String)
    ensures
        document_entries(*final(document)) == document_entries(*old(document)).insert(
            key@,
            EntryView::Text(value@),
        ),
{
    store_text(document, key, value)
}

/// Stores an integer under a top-level key.
pub fn set_integer(document: &mut toml_edit::DocumentMut, key: &str, value: i64)
    ensures
        document_entries(*final(document)) == document_entries(*old(document)).insert(
            key@,
            EntryView::Integer(value),
        ),
{
    store_integer(document, key, value)
}

/// Stores a boolean under a top-level key.
pub fn set_boolean(document: &mut toml_edit::DocumentMut, key: &str, value: bool)
    ensures
        document_entries(*final(document)) == document_entries(*old(document)).insert(
            key@,
            EntryView::Boolean(value),
        ),
{
    store_boolean(document, key, value)
}

/// What reading a text under `key` gives, among the given entries.
pub open spec fn string_at(entries: Map<Seq<char>, EntryView>, key: Seq<char>, default: Seq<char>) -> Result<
    Seq<char>,
    ValueErrorView,
> {
    if !entries.dom().contains(key) {
        Ok(default)
    } else {
        match entries[key] {
            EntryView::Text(s) => Ok(s),
            EntryView::NotAValue => Err(ValueErrorView::NotAValueError(key)),
            _ => Err(ValueErrorView::WrongTypeError(key, "String"@)),
        }
    }
}

/// What reading a boolean under `key` gives, among the given entries.
pub open spec fn boolean_at(entries: Map<Seq<char>, EntryView>, key: Seq<char>, default: bool) -> Result<
    bool,
    ValueErrorView,
> {
    if !entries.dom().contains(key) {
        Ok(default)
    } else {
        match entries[key] {
            EntryView::Boolean(b) => Ok(b),
            EntryView::NotAValue => Err(ValueErrorView::NotAValueError(key)),
            _ => Err(ValueErrorView::WrongTypeError(key, "Boolean"@)),
        }
    }
}

/// What reading an integer under `key` gives, among the given entries.
pub open spec fn integer_at(entries: Map<Seq<char>, EntryView>, key: Seq<char>, default: i64) -> Result<
    i64,
    ValueErrorView,
> {
    if !entries.dom().contains(key) {
        Ok(default)
    } else {
        match entries[key] {
            EntryView::Integer(n) => Ok(n),
            EntryView::NotAValue => Err(ValueErrorView::NotAValueError(key)),
            _ => Err(ValueErrorView::WrongTypeError(key, "Integer"@)),
        }
    }
}

/// Reads the text under `key`, or `default` where the key is absent.
pub fn get_string(document: &toml_edit::DocumentMut, key: &str, default: &str) -> (value: Result<
    String,
    ValueError,
>)
    ensures
        match value {
            Ok(s) => string_at(document_entries(*document), key@, default@) == Ok::<
                Seq<char>,
                ValueErrorView,
            >(s@),
            Err(e) => string_at(document_entries(*document), key@, default@) == Err::<
                Seq<char>,
                ValueErrorView,
            >(e@),
        },
{
    match get_entry(document, key) {
        Some(Entry::Text(s)) => Ok(s),
        Some(Entry::NotAValue) => Err(ValueError::NotAValueError(key.to_string())),
        Some(_) => Err(ValueError::WrongTypeError(key.to_string(), "String".to_string())),
        None => Ok(default.to_string()),
    }
}

/// Reads the boolean under `key`, or `default` where the key is absent.
pub fn get_boolean(document: &toml_edit::DocumentMut, key: &str, default: bool) -> (value: Result<
    bool,
    ValueError,
>)
    ensures
        match value {
            Ok(b) => boolean_at(document_entries(*document), key@, default) == Ok::<
                bool,
                ValueErrorView,
            >(b),
            Err(e) => boolean_at(document_entries(*document), key@, default) == Err::<
                bool,
                ValueErrorView,
            >(e@),
        },
{
    match get_entry(document, key) {
        Some(Entry::Boolean(b)) => Ok(b),
        Some(Entry::NotAValue) => Err(ValueError::NotAValueError(key.to_string())),
        Some(_) => Err(ValueError::WrongTypeError(key.to_string(), "Boolean".to_string())),
        None => Ok(default),
    }
}

/// Reads the integer under `key`, or `default` where the key is absent.
pub fn get_integer(document: &toml_edit::DocumentMut, key: &str, default: i64) -> (value: Result<
    i64,
    ValueError,
>)
    ensures
        match value {
            Ok(n) => integer_at(document_entries(*document), key@, default) == Ok::<
                i64,
                ValueErrorView,
            >(n),
            Err(e) => integer_at(document_entries(*document), key@, default) == Err::<
                i64,
                ValueErrorView,
            >(e@),
        },
{
    match get_entry(document, key) {
        Some(Entry::Integer(n)) => Ok(n),
        Some(Entry::NotAValue) => Err(ValueError::NotAValueError(key.to_string())),
        Some(_) => Err(ValueError::WrongTypeError(key.to_string(), "Integer".to_string())),
        None => Ok(default),
    }
}

/// What loading a settings file gives for what the parser made of its
/// text: the document, or the parser's error as the error of the file.
pub fn document_or_error(parsed: Result<toml_edit::DocumentMut, toml_edit::TomlError>) -> (document: Result<
    toml_edit::DocumentMut,
    FileError,
>)
    ensures
        match parsed {
            Ok(d) => document == Ok::<toml_edit::DocumentMut, FileError>(d),
            Err(e) => document == Err::<toml_edit::DocumentMut, FileError>(FileError::TomlError(e)),
        },
{
    match parsed {
        Ok(document) => Ok(document),
        Err(e) => Err(FileError::TomlError(e)),
    }
}

/// Parses the text of a settings file: the document that the parser reads
/// from it, or the parser's error where it reads none.
pub fn parse_from_text(text: &str) -> (document: Result<toml_edit::DocumentMut, FileError>)
    ensures
        match document {
            Ok(d) => parsed_entries(text@) == Some(document_entries(d)),
            Err(e) => e is TomlError && parsed_entries(text@) is None,
        },
{
    document_or_error(parse_document(text))
}

/// The text that a settings file is to hold for a document: the document
/// written out.
pub fn save_to_text(document: &toml_edit::DocumentMut) -> (text: String)
    ensures
        text@ == document_text(*document),
{
    render_document(document)
}

} // verus!
