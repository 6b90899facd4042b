use vstd::prelude::*;

verus! {

// ------------------------------------------------------------------------
// Outside types.
// ------------------------------------------------------------------------

/// `toml_edit::DocumentMut`: an editable TOML document that keeps the
/// formatting and comments of the text it was parsed from.
#[verifier::external_type_specification]
#[verifier::external_body]
pub struct ExDocumentMut(toml_edit::DocumentMut);

/// `toml_edit::Item`: one value of a TOML document (a plain value, a table,
/// or an array of tables).
#[verifier::external_type_specification]
#[verifier::external_body]
pub struct ExItem(toml_edit::Item);

/// `toml_edit::TomlError`: the error `toml_edit` reports for a text that is
/// not syntactically valid TOML.
#[verifier::external_type_specification]
#[verifier::external_body]
pub struct ExTomlError(toml_edit::TomlError);

// ------------------------------------------------------------------------
// The model.
//
// What a manifest text denotes is characterized by the `text_*` functions
// over `Seq<char>`; a live document carries its rendered text (`doc_text`)
// and, separately, its two table flags (`doc_has_*`).  The flags exist in
// both forms because a document is not determined by its rendered text: a
// table emptied of every entry can still be present in the document while
// the renderer leaves it out of the text.  Parsing a text yields a document
// whose flags agree with the text's (`parse_doc` states so); an edited
// document keeps its flags, while what its *text* shows is stated per
// operation, and only as far as `toml_edit`'s source supports it.  None of
// these functions has a body: the wrappers below relate `toml_edit`'s
// operations to them, and the verified merge is proved against those
// contracts.
// ------------------------------------------------------------------------

/// The text a document serializes to (what `Display` produces).
pub uninterp spec fn doc_text(d: toml_edit::DocumentMut) -> Seq<char>;

/// Whether the live document's top-level `package` entry is a table, as
/// `Table::contains_table` counts one.
pub uninterp spec fn doc_has_package_table(d: toml_edit::DocumentMut) -> bool;

/// Whether the live document's top-level `dependencies` entry is a table,
/// as `Table::contains_table` counts one.
pub uninterp spec fn doc_has_deps_table(d: toml_edit::DocumentMut) -> bool;

/// An abstract representation of one item's value, decor included, so that
/// two items are interchangeable whenever their representations are equal.
pub uninterp spec fn item_repr(i: toml_edit::Item) -> Seq<char>;

/// Whether an item is a real entry, rather than the invisible `Item::None`
/// placeholder that `Table::get` and `Table::iter` filter out and rendering
/// skips.  Inserting such a placeholder would not put an entry into the
/// text, so the inserting wrappers below require this of their argument,
/// and the reading wrappers guarantee it of every item they hand out.
pub uninterp spec fn item_visible(i: toml_edit::Item) -> bool;

/// Whether a text is syntactically valid TOML.
pub uninterp spec fn toml_parses(s: Seq<char>) -> bool;

/// The representation of the item stored under `package.name`, if the text
/// has a `package` entry with a `name` entry under it.
pub uninterp spec fn text_package_name(s: Seq<char>) -> Option<Seq<char>>;

/// Whether the text's top-level `package` entry is a table, as
/// `Table::contains_table` counts one.
pub uninterp spec fn text_has_package_table(s: Seq<char>) -> bool;

/// The entries of the text's top-level `dependencies` table: each
/// dependency name mapped to the representation of its item; the empty map
/// when the text has no such table.
pub uninterp spec fn text_deps(s: Seq<char>) -> Map<Seq<char>, Seq<char>>;

/// Whether the text's top-level `dependencies` entry is a table, as
/// `Table::contains_table` counts one.
pub uninterp spec fn text_has_deps_table(s: Seq<char>) -> bool;

/// Everything the merge never touches: the text's content apart from the
/// `package` table's `name` entry and the `dependencies` table's entries.
pub uninterp spec fn text_rest(s: Seq<char>) -> Seq<char>;

/// The parts of the model an edit of the `dependencies` table leaves alone.
pub open spec fn same_outside_deps(a: Seq<char>, b: Seq<char>) -> bool {
    &&& text_package_name(b) == text_package_name(a)
    &&& text_has_package_table(b) == text_has_package_table(a)
    &&& text_rest(b) == text_rest(a)
}

/// A document whose table flags agree with its rendered text, as every
/// freshly parsed document's do.  The merge requires this of the documents
/// it is given: on a document whose emptied table no longer shows in the
/// text, the two forms part ways.
pub open spec fn reflects_text(d: toml_edit::DocumentMut) -> bool {
    &&& toml_parses(doc_text(d))
    &&& doc_has_package_table(d) == text_has_package_table(doc_text(d))
    &&& doc_has_deps_table(d) == text_has_deps_table(doc_text(d))
}

// ------------------------------------------------------------------------
// Trusted wrappers.
// ------------------------------------------------------------------------

/// Relies on `<toml_edit::DocumentMut as FromStr>::from_str` (`str::parse`):
/// it succeeds exactly on syntactically valid TOML, and the document it
/// returns denotes what the input text denotes — its rendered text can
/// differ in bytes (`toml_edit` documents that a missing final newline and
/// the order of dotted keys are not preserved), so what is stated is that
/// every model projection of the rendered text, and the document's own
/// table flags, equal the input text's projections.
#[verifier::external_body]
pub(crate) fn parse_doc(s: &str) -> (r: Result<toml_edit::DocumentMut, toml_edit::TomlError>)
    ensures
        r is Ok <==> toml_parses(s@),
        r is Ok ==> toml_parses(doc_text(r->Ok_0)),
        r is Ok ==> text_package_name(doc_text(r->Ok_0)) == text_package_name(s@),
        r is Ok ==> text_has_package_table(doc_text(r->Ok_0)) == text_has_package_table(s@),
        r is Ok ==> text_deps(doc_text(r->Ok_0)) == text_deps(s@),
        r is Ok ==> text_has_deps_table(doc_text(r->Ok_0)) == text_has_deps_table(s@),
        r is Ok ==> text_rest(doc_text(r->Ok_0)) == text_rest(s@),
        r is Ok ==> doc_has_package_table(r->Ok_0) == text_has_package_table(s@),
        r is Ok ==> doc_has_deps_table(r->Ok_0) == text_has_deps_table(s@),
{
    s.parse::<toml_edit::DocumentMut>()
}

/// Relies on `<toml_edit::DocumentMut as Display>`: `to_string` returns the
/// document's serialized text.
#[verifier::external_body]
pub(crate) fn render_doc(d: &toml_edit::DocumentMut) -> (r: String)
    ensures
        r@ == doc_text(*d),
{
    d.to_string()
}

/// Relies on `toml_edit::Table::get` and `toml_edit::Item::get`: a clone of
/// the item stored under `package.name`, if there is one.  Both getters
/// filter the `Item::None` placeholder out, so what comes back is visible,
/// and a placeholder never shows in the rendered text either.
#[verifier::external_body]
pub(crate) fn package_name_item(d: &toml_edit::DocumentMut) -> (r: Option<toml_edit::Item>)
    ensures
        r is Some <==> text_package_name(doc_text(*d)) is Some,
        r is Some ==> Some(item_repr(r->0)) == text_package_name(doc_text(*d)),
        r is Some ==> item_visible(r->0),
{
    match d.as_table().get("package") {
        Some(p) => match p.get("name") {
            Some(n) => Some(n.clone()),
            None => None,
        },
        None => None,
    }
}

/// Relies on `toml_edit::Table::contains_table`: whether the live
/// document's top-level `package` entry is a table.  This is the document's
/// own state, not its text's: an emptied implicit table still counts here
/// while the renderer leaves it out.
#[verifier::external_body]
pub(crate) fn has_package_table(d: &toml_edit::DocumentMut) -> (r: bool)
    ensures
        r == doc_has_package_table(*d),
{
    d.as_table().contains_table("package")
}

/// Relies on `toml_edit::Table::get_mut` and `toml_edit::Table::insert` on
/// the `package` table: the item becomes the value of the `name` entry — in
/// place when the entry exists, keeping its key, decor and position, else
/// appended — and the rest of the document stays as it was.  The table then
/// holds a visible entry, so it shows in the rendered text.  Only a visible
/// item may be stored: for the `Item::None` placeholder the rendered text
/// would carry no entry.
#[verifier::external_body]
pub(crate) fn set_package_name(d: &mut toml_edit::DocumentMut, name: toml_edit::Item)
    requires
        doc_has_package_table(*old(d)),
        item_visible(name),
    ensures
        toml_parses(doc_text(*final(d))),
        text_package_name(doc_text(*final(d))) == Some(item_repr(name)),
        text_has_package_table(doc_text(*final(d))),
        doc_has_package_table(*final(d)),
        doc_has_deps_table(*final(d)) == doc_has_deps_table(*old(d)),
        text_deps(doc_text(*final(d))) == text_deps(doc_text(*old(d))),
        text_has_deps_table(doc_text(*final(d))) == text_has_deps_table(doc_text(*old(d))),
        text_rest(doc_text(*final(d))) == text_rest(doc_text(*old(d))),
{
    if let Some(toml_edit::Item::Table(t)) = d.as_table_mut().get_mut("package") {
        match t.get_mut("name") {
            Some(slot) => {
                *slot = name;
            },
            None => {
                t.insert("name", name);
            },
        }
    }
}

/// Relies on `toml_edit::Table::contains_table`: whether the live
/// document's top-level `dependencies` entry is a table.  This is the
/// document's own state, not its text's: an emptied implicit table still
/// counts here while the renderer leaves it out.
#[verifier::external_body]
pub(crate) fn has_deps_table(d: &toml_edit::DocumentMut) -> (r: bool)
    ensures
        r == doc_has_deps_table(*d),
{
    d.as_table().contains_table("dependencies")
}

/// Relies on `toml_edit::Table::iter` on the `dependencies` table: the
/// dependency names, each once; empty when the document has no
/// `dependencies` table.  The iterator and the renderer both skip the
/// `Item::None` placeholder, so the names are exactly the rendered text's.
#[verifier::external_body]
pub(crate) fn deps_keys(d: &toml_edit::DocumentMut) -> (r: Vec<String>)
    ensures
        r@.map_values(|k: String| k@).no_duplicates(),
        doc_has_deps_table(*d) ==> r@.map_values(|k: String| k@).to_set() == text_deps(
            doc_text(*d),
        ).dom(),
        !doc_has_deps_table(*d) ==> r@.len() == 0,
{
    match d.as_table().get("dependencies") {
        Some(toml_edit::Item::Table(t)) => t.iter().map(|(k, _)| k.to_string()).collect(),
        _ => Vec::new(),
    }
}

/// Relies on `toml_edit::Table::get` on the `dependencies` table: a clone
/// of the item stored under the given dependency name, if there is one.
/// The getter filters the `Item::None` placeholder out, so what comes back
/// is visible.
#[verifier::external_body]
pub(crate) fn dep_item(d: &toml_edit::DocumentMut, key: &String) -> (r: Option<toml_edit::Item>)
    requires
        doc_has_deps_table(*d),
    ensures
        r is Some <==> text_deps(doc_text(*d)).dom().contains(key@),
        r is Some ==> Some(item_repr(r->0)) == Some(text_deps(doc_text(*d))[key@]),
        r is Some ==> item_visible(r->0),
{
    match d.as_table().get("dependencies") {
        Some(toml_edit::Item::Table(t)) => t.get(key.as_str()).cloned(),
        _ => None,
    }
}

/// Relies on `toml_edit::Table::get_mut` and `toml_edit::Table::insert` on
/// the `dependencies` table: the item becomes the value of the named entry
/// — in place when the entry exists, keeping its key, decor and position,
/// else appended — and the rest of the document stays as it was.  The table
/// then holds a visible entry, so it shows in the rendered text.  Only a
/// visible item may be stored: for the `Item::None` placeholder the
/// rendered text would carry no entry.
#[verifier::external_body]
pub(crate) fn insert_dep(d: &mut toml_edit::DocumentMut, key: &String, item: toml_edit::Item)
    requires
        doc_has_deps_table(*old(d)),
        item_visible(item),
    ensures
        toml_parses(doc_text(*final(d))),
        text_deps(doc_text(*final(d))) == text_deps(doc_text(*old(d))).insert(key@, item_repr(item)),
        text_has_deps_table(doc_text(*final(d))),
        doc_has_deps_table(*final(d)),
        doc_has_package_table(*final(d)) == doc_has_package_table(*old(d)),
        text_package_name(doc_text(*final(d))) == text_package_name(doc_text(*old(d))),
        text_has_package_table(doc_text(*final(d))) == text_has_package_table(doc_text(*old(d))),
        text_rest(doc_text(*final(d))) == text_rest(doc_text(*old(d))),
{
    if let Some(toml_edit::Item::Table(t)) = d.as_table_mut().get_mut("dependencies") {
        match t.get_mut(key.as_str()) {
            Some(slot) => {
                *slot = item;
            },
            None => {
                t.insert(key.as_str(), item);
            },
        }
    }
}

} // verus!
