//! Structured configuration documents and field-level defaulting.
//!
//! A [`Document`] is the structured-data tree a [`DisplayConfig`] is read
//! from and written to: a sequence of field entries in source order. Every
//! field is optional in a document; deserialization fills each absent field
//! with its documented default, field by field, and fails with a
//! [`SchemaError`] when a present field has the wrong shape.

use vstd::prelude::*;

use crate::config::{
    spec_default_config, spec_default_title, default_decorations, default_resizable,
    default_title, default_visibility, DisplayConfig, DisplayConfigView,
};
use crate::monitor::{MonitorIdent, MonitorIdentView};

verus! {

/// Names of the twelve configuration fields, in schema order.
#[derive(Clone, Copy, Debug, PartialEq, Eq, Structural)]
pub enum FieldKey {
    Title,
    Fullscreen,
    Dimensions,
    MinDimensions,
    MaxDimensions,
    Visibility,
    AlwaysOnTop,
    Decorations,
    Maximized,
    Multitouch,
    Resizable,
    Transparent,
}

/// One value in a structured configuration document.
#[derive(Clone, Debug, PartialEq, Eq)]
pub enum FieldValue {
    /// An explicit "unset" marker, the written form of an absent optional
    /// value.
    Null,
    /// A boolean value.
    Flag(bool),
    /// A text value.
    Text(String),
    /// A pixel pair: width and height.
    Pair(u32, u32),
    /// A monitor identifier.
    Ident(MonitorIdent),
}

/// Mathematical model of a [`FieldValue`].
pub enum FieldValueView {
    Null,
    Flag(bool),
    Text(Seq<char>),
    Pair(u32, u32),
    Ident(MonitorIdentView),
}

impl View for FieldValue {
    type V = FieldValueView;

    open spec fn view(&self) -> FieldValueView {
        match self {
            FieldValue::Null => FieldValueView::Null,
            FieldValue::Flag(b) => FieldValueView::Flag(*b),
            FieldValue::Text(s) => FieldValueView::Text(s@),
            FieldValue::Pair(w, h) => FieldValueView::Pair(*w, *h),
            FieldValue::Ident(i) => FieldValueView::Ident(i@),
        }
    }
}

/// One field entry of a document: a key with the value written for it.
#[derive(Clone, Debug, PartialEq, Eq)]
pub struct DocumentEntry {
    pub key: FieldKey,
    pub value: FieldValue,
}

/// Mathematical model of a [`DocumentEntry`].
pub struct DocumentEntryView {
    pub key: FieldKey,
    pub value: FieldValueView,
}

impl View for DocumentEntry {
    type V = DocumentEntryView;

    open spec fn view(&self) -> DocumentEntryView {
        DocumentEntryView { key: self.key, value: self.value@ }
    }
}

/// A structured configuration document: field entries in source order. When
/// a key occurs more than once, the first entry for it is the one read.
#[derive(Clone, Debug, PartialEq, Eq)]
pub struct Document {
    pub entries: Vec<DocumentEntry>,
}

impl View for Document {
    type V = Seq<DocumentEntryView>;

    open spec fn view(&self) -> Seq<DocumentEntryView> {
        self.entries@.map_values(|e: DocumentEntry| e@)
    }
}

/// The value of the first entry for `key` at or after position `i`, if any.
pub open spec fn spec_find_from(
    doc: Seq<DocumentEntryView>,
    key: FieldKey,
    i: int,
) -> Option<FieldValueView>
    decreases doc.len() - i,
{
    if i < 0 || i >= doc.len() {
        None
    } else if doc[i].key == key {
        Some(doc[i].value)
    } else {
        spec_find_from(doc, key, i + 1)
    }
}

/// The value written for `key`: the value of its first entry, or `None`
/// when the document has no entry for it.
pub open spec fn spec_find(doc: Seq<DocumentEntryView>, key: FieldKey) -> Option<FieldValueView> {
    spec_find_from(doc, key, 0)
}

/// What deserialization yields for a text field: the written text, the
/// given default when the field is absent, or the field's key as the error
/// when the written value is not text.
pub open spec fn spec_text(
    doc: Seq<DocumentEntryView>,
    key: FieldKey,
    default: Seq<char>,
) -> Result<Seq<char>, FieldKey> {
    match spec_find(doc, key) {
        None => Ok(default),
        Some(FieldValueView::Text(s)) => Ok(s),
        Some(_) => Err(key),
    }
}

/// What deserialization yields for a boolean field: the written flag, the
/// given default when the field is absent, or the field's key as the error
/// when the written value is not a flag.
pub open spec fn spec_flag(
    doc: Seq<DocumentEntryView>,
    key: FieldKey,
    default: bool,
) -> Result<bool, FieldKey> {
    match spec_find(doc, key) {
        None => Ok(default),
        Some(FieldValueView::Flag(b)) => Ok(b),
        Some(_) => Err(key),
    }
}

/// What deserialization yields for an optional pixel-pair field: the
/// written pair, `None` when the field is absent or written as null, or the
/// field's key as the error when the written value has another shape.
pub open spec fn spec_pair(
    doc: Seq<DocumentEntryView>,
    key: FieldKey,
) -> Result<Option<(u32, u32)>, FieldKey> {
    match spec_find(doc, key) {
        None => Ok(None),
        Some(FieldValueView::Null) => Ok(None),
        Some(FieldValueView::Pair(w, h)) => Ok(Some((w, h))),
        Some(_) => Err(key),
    }
}

/// What deserialization yields for the optional monitor-identifier field:
/// the written identifier, `None` when the field is absent or written as
/// null, or the field's key as the error when the written value has another
/// shape.
pub open spec fn spec_ident(
    doc: Seq<DocumentEntryView>,
    key: FieldKey,
) -> Result<Option<MonitorIdentView>, FieldKey> {
    match spec_find(doc, key) {
        None => Ok(None),
        Some(FieldValueView::Null) => Ok(None),
        Some(FieldValueView::Ident(i)) => Ok(Some(i)),
        Some(_) => Err(key),
    }
}

/// The first field, in schema order, whose written value has the wrong
/// shape, if any.
pub open spec fn spec_first_error(doc: Seq<DocumentEntryView>) -> Option<FieldKey> {
    if spec_text(doc, FieldKey::Title, spec_default_title()) is Err {
        Some(FieldKey::Title)
    } else if spec_ident(doc, FieldKey::Fullscreen) is Err {
        Some(FieldKey::Fullscreen)
    } else if spec_pair(doc, FieldKey::Dimensions) is Err {
        Some(FieldKey::Dimensions)
    } else if spec_pair(doc, FieldKey::MinDimensions) is Err {
        Some(FieldKey::MinDimensions)
    } else if spec_pair(doc, FieldKey::MaxDimensions) is Err {
        Some(FieldKey::MaxDimensions)
    } else if spec_flag(doc, FieldKey::Visibility, true) is Err {
        Some(FieldKey::Visibility)
    } else if spec_flag(doc, FieldKey::AlwaysOnTop, false) is Err {
        Some(FieldKey::AlwaysOnTop)
    } else if spec_flag(doc, FieldKey::Decorations, true) is Err {
        Some(FieldKey::Decorations)
    } else if spec_flag(doc, FieldKey::Maximized, false) is Err {
        Some(FieldKey::Maximized)
    } else if spec_flag(doc, FieldKey::Multitouch, false) is Err {
        Some(FieldKey::Multitouch)
    } else if spec_flag(doc, FieldKey::Resizable, true) is Err {
        Some(FieldKey::Resizable)
    } else if spec_flag(doc, FieldKey::Transparent, false) is Err {
        Some(FieldKey::Transparent)
    } else {
        None
    }
}

/// The record a well-shaped document deserializes to: each field's written
/// value, or its documented default where absent.
pub open spec fn spec_config_values(doc: Seq<DocumentEntryView>) -> DisplayConfigView {
    DisplayConfigView {
        title: spec_text(doc, FieldKey::Title, spec_default_title())->Ok_0,
        fullscreen: spec_ident(doc, FieldKey::Fullscreen)->Ok_0,
        dimensions: spec_pair(doc, FieldKey::Dimensions)->Ok_0,
        min_dimensions: spec_pair(doc, FieldKey::MinDimensions)->Ok_0,
        max_dimensions: spec_pair(doc, FieldKey::MaxDimensions)->Ok_0,
        visibility: spec_flag(doc, FieldKey::Visibility, true)->Ok_0,
        always_on_top: spec_flag(doc, FieldKey::AlwaysOnTop, false)->Ok_0,
        decorations: spec_flag(doc, FieldKey::Decorations, true)->Ok_0,
        maximized: spec_flag(doc, FieldKey::Maximized, false)->Ok_0,
        multitouch: spec_flag(doc, FieldKey::Multitouch, false)->Ok_0,
        resizable: spec_flag(doc, FieldKey::Resizable, true)->Ok_0,
        transparent: spec_flag(doc, FieldKey::Transparent, false)->Ok_0,
    }
}

/// What a document deserializes to: the per-field values with defaults
/// filled in, or the first wrongly shaped field in schema order.
pub open spec fn spec_from_document(
    doc: Seq<DocumentEntryView>,
) -> Result<DisplayConfigView, FieldKey> {
    match spec_first_error(doc) {
        Some(k) => Err(k),
        None => Ok(spec_config_values(doc)),
    }
}

/// The document a configuration serializes to: one entry per field, in
/// schema order, with unset optional fields written as explicit nulls.
pub open spec fn spec_to_document(c: DisplayConfigView) -> Seq<DocumentEntryView> {
    seq![
        DocumentEntryView { key: FieldKey::Title, value: FieldValueView::Text(c.title) },
        DocumentEntryView { key: FieldKey::Fullscreen, value: spec_ident_value(c.fullscreen) },
        DocumentEntryView { key: FieldKey::Dimensions, value: spec_pair_value(c.dimensions) },
        DocumentEntryView { key: FieldKey::MinDimensions, value: spec_pair_value(c.min_dimensions) },
        DocumentEntryView { key: FieldKey::MaxDimensions, value: spec_pair_value(c.max_dimensions) },
        DocumentEntryView { key: FieldKey::Visibility, value: FieldValueView::Flag(c.visibility) },
        DocumentEntryView { key: FieldKey::AlwaysOnTop, value: FieldValueView::Flag(c.always_on_top) },
        DocumentEntryView { key: FieldKey::Decorations, value: FieldValueView::Flag(c.decorations) },
        DocumentEntryView { key: FieldKey::Maximized, value: FieldValueView::Flag(c.maximized) },
        DocumentEntryView { key: FieldKey::Multitouch, value: FieldValueView::Flag(c.multitouch) },
        DocumentEntryView { key: FieldKey::Resizable, value: FieldValueView::Flag(c.resizable) },
        DocumentEntryView { key: FieldKey::Transparent, value: FieldValueView::Flag(c.transparent) },
    ]
}

/// The written form of an optional monitor identifier.
pub open spec fn spec_ident_value(o: Option<MonitorIdentView>) -> FieldValueView {
    match o {
        Option::None => FieldValueView::Null,
        Option::Some(i) => FieldValueView::Ident(i),
    }
}

/// The written form of an optional pixel pair.
pub open spec fn spec_pair_value(o: Option<(u32, u32)>) -> FieldValueView {
    match o {
        Option::None => FieldValueView::Null,
        Option::Some(p) => FieldValueView::Pair(p.0, p.1),
    }
}

/// Deserialization failure: the named field is present in the document with
/// the wrong shape.
#[derive(Clone, Copy, Debug, PartialEq, Eq, Structural)]
pub struct SchemaError {
    /// The first field, in schema order, whose written value has the wrong
    /// shape.
    pub field: FieldKey,
}

/// The position of the first entry for `key`, if any.
fn find_index(doc: &Document, key: FieldKey) -> (r: Option<usize>)
    ensures
        match r {
            Some(i) => i < doc@.len() && doc@[i as int].key == key && spec_find(doc@, key)
                == Some(doc@[i as int].value),
            None => spec_find(doc@, key) is None,
        },
{
    let n: usize = doc.entries.len();
    let mut i: usize = 0;
    while i < n
        invariant
            n == doc.entries@.len(),
            doc@.len() == n,
            i <= n,
            spec_find(doc@, key) == spec_find_from(doc@, key, i as int),
        decreases n - i,
    {
        let e: &DocumentEntry = &doc.entries[i];
        proof {
            assert(doc@[i as int] == doc.entries@[i as int]@);
        }
        if e.key == key {
            return Some(i);
        }
        proof {
            assert(spec_find_from(doc@, key, i as int) == spec_find_from(doc@, key, i as int + 1));
        }
        i = i + 1;
    }
    None
}

/// Reads a text field, defaulting to `default` when absent.
fn take_text(doc: &Document, key: FieldKey, default: String) -> (r: Result<String, SchemaError>)
    ensures
        match r {
            Ok(s) => spec_text(doc@, key, default@) == Ok::<Seq<char>, FieldKey>(s@),
            Err(e) => e.field == key && spec_text(doc@, key, default@) == Err::<Seq<char>, FieldKey>(
                key,
            ),
        },
{
    match find_index(doc, key) {
        None => Ok(default),
        Some(i) => match &doc.entries[i].value {
            FieldValue::Text(s) => Ok(s.clone()),
            _ => Err(SchemaError { field: key }),
        },
    }
}

/// Reads a boolean field, defaulting to `default` when absent.
fn take_flag(doc: &Document, key: FieldKey, default: bool) -> (r: Result<bool, SchemaError>)
    ensures
        match r {
            Ok(b) => spec_flag(doc@, key, default) == Ok::<bool, FieldKey>(b),
            Err(e) => e.field == key && spec_flag(doc@, key, default) == Err::<bool, FieldKey>(key),
        },
{
    match find_index(doc, key) {
        None => Ok(default),
        Some(i) => match &doc.entries[i].value {
            FieldValue::Flag(b) => Ok(*b),
            _ => Err(SchemaError { field: key }),
        },
    }
}

/// Reads an optional pixel-pair field; absent and null both mean unset.
fn take_pair(doc: &Document, key: FieldKey) -> (r: Result<Option<(u32, u32)>, SchemaError>)
    ensures
        match r {
            Ok(p) => spec_pair(doc@, key) == Ok::<Option<(u32, u32)>, FieldKey>(p),
            Err(e) => e.field == key && spec_pair(doc@, key) == Err::<
                Option<(u32, u32)>,
                FieldKey,
            >(key),
        },
{
    match find_index(doc, key) {
        None => Ok(None),
        Some(i) => match &doc.entries[i].value {
            FieldValue::Null => Ok(None),
            FieldValue::Pair(w, h) => Ok(Some((*w, *h))),
            _ => Err(SchemaError { field: key }),
        },
    }
}

/// Reads the optional monitor-identifier field; absent and null both mean
/// unset.
fn take_ident(doc: &Document, key: FieldKey) -> (r: Result<Option<MonitorIdent>, SchemaError>)
    ensures
        match r {
            Ok(o) => spec_ident(doc@, key) == Ok::<Option<MonitorIdentView>, FieldKey>(
                crate::config::ident_opt_view(o),
            ),
            Err(e) => e.field == key && spec_ident(doc@, key) == Err::<
                Option<MonitorIdentView>,
                FieldKey,
            >(key),
        },
{
    match find_index(doc, key) {
        None => Ok(None),
        Some(i) => match &doc.entries[i].value {
            FieldValue::Null => Ok(None),
            FieldValue::Ident(id) => Ok(
                Some(MonitorIdent { index: id.index, name: id.name.clone() }),
            ),
            _ => Err(SchemaError { field: key }),
        },
    }
}

impl DisplayConfig {
    /// Deserializes a configuration from a structured document. Each absent
    /// field is filled with its documented default, field by field; a field
    /// written with the wrong shape fails the whole read with a
    /// [`SchemaError`] naming the first such field in schema order.
    pub fn from_document(doc: &Document) -> (r: Result<DisplayConfig, SchemaError>)
        ensures
            match r {
                Ok(c) => spec_from_document(doc@) == Ok::<DisplayConfigView, FieldKey>(c@),
                Err(e) => spec_from_document(doc@) == Err::<DisplayConfigView, FieldKey>(e.field),
            },
    {
        let title = match take_text(doc, FieldKey::Title, default_title()) {
            Ok(v) => v,
            Err(e) => {
                return Err(e);
            },
        };
        let fullscreen = match take_ident(doc, FieldKey::Fullscreen) {
            Ok(v) => v,
            Err(e) => {
                return Err(e);
            },
        };
        let dimensions = match take_pair(doc, FieldKey::Dimensions) {
            Ok(v) => v,
            Err(e) => {
                return Err(e);
            },
        };
        let min_dimensions = match take_pair(doc, FieldKey::MinDimensions) {
            Ok(v) => v,
            Err(e) => {
                return Err(e);
            },
        };
        let max_dimensions = match take_pair(doc, FieldKey::MaxDimensions) {
            Ok(v) => v,
            Err(e) => {
                return Err(e);
            },
        };
        let visibility = match take_flag(doc, FieldKey::Visibility, default_visibility()) {
            Ok(v) => v,
            Err(e) => {
                return Err(e);
            },
        };
        let always_on_top = match take_flag(doc, FieldKey::AlwaysOnTop, false) {
            Ok(v) => v,
            Err(e) => {
                return Err(e);
            },
        };
        let decorations = match take_flag(doc, FieldKey::Decorations, default_decorations()) {
            Ok(v) => v,
            Err(e) => {
                return Err(e);
            },
        };
        let maximized = match take_flag(doc, FieldKey::Maximized, false) {
            Ok(v) => v,
            Err(e) => {
                return Err(e);
            },
        };
        let multitouch = match take_flag(doc, FieldKey::Multitouch, false) {
            Ok(v) => v,
            Err(e) => {
                return Err(e);
            },
        };
        let resizable = match take_flag(doc, FieldKey::Resizable, default_resizable()) {
            Ok(v) => v,
            Err(e) => {
                return Err(e);
            },
        };
        let transparent = match take_flag(doc, FieldKey::Transparent, false) {
            Ok(v) => v,
            Err(e) => {
                return Err(e);
            },
        };
        Ok(
            DisplayConfig {
                title,
                fullscreen,
                dimensions,
                min_dimensions,
                max_dimensions,
                visibility,
                always_on_top,
                decorations,
                maximized,
                multitouch,
                resizable,
                transparent,
            },
        )
    }

    /// Serializes this configuration into a structured document: one entry
    /// per field, in schema order, with unset optional fields written as
    /// explicit nulls.
    pub fn to_document(&self) -> (r: Document)
        ensures
            r@ == spec_to_document(self@),
    {
        let mut entries: Vec<DocumentEntry> = Vec::new();
        entries.push(
            DocumentEntry { key: FieldKey::Title, value: FieldValue::Text(self.title.clone()) },
        );
        let fullscreen_value = match &self.fullscreen {
            None => FieldValue::Null,
            Some(i) => FieldValue::Ident(MonitorIdent { index: i.index, name: i.name.clone() }),
        };
        entries.push(DocumentEntry { key: FieldKey::Fullscreen, value: fullscreen_value });
        entries.push(
            DocumentEntry { key: FieldKey::Dimensions, value: pair_value(self.dimensions) },
        );
        entries.push(
            DocumentEntry { key: FieldKey::MinDimensions, value: pair_value(self.min_dimensions) },
        );
        entries.push(
            DocumentEntry { key: FieldKey::MaxDimensions, value: pair_value(self.max_dimensions) },
        );
        entries.push(
            DocumentEntry { key: FieldKey::Visibility, value: FieldValue::Flag(self.visibility) },
        );
        entries.push(
            DocumentEntry {
                key: FieldKey::AlwaysOnTop,
                value: FieldValue::Flag(self.always_on_top),
            },
        );
        entries.push(
            DocumentEntry { key: FieldKey::Decorations, value: FieldValue::Flag(self.decorations) },
        );
        entries.push(
            DocumentEntry { key: FieldKey::Maximized, value: FieldValue::Flag(self.maximized) },
        );
        entries.push(
            DocumentEntry { key: FieldKey::Multitouch, value: FieldValue::Flag(self.multitouch) },
        );
        entries.push(
            DocumentEntry { key: FieldKey::Resizable, value: FieldValue::Flag(self.resizable) },
        );
        entries.push(
            DocumentEntry { key: FieldKey::Transparent, value: FieldValue::Flag(self.transparent) },
        );
        let r = Document { entries };
        proof {
            assert(r@ =~= spec_to_document(self@));
        }
        r
    }
}

/// Law: a field the document has no entry for deserializes to its
/// documented default, whichever other fields are written.
pub proof fn lemma_absent_field_defaults(doc: Seq<DocumentEntryView>)
    ensures
        spec_from_document(doc) matches Ok(c) ==> {
            &&& spec_find(doc, FieldKey::Title) is None ==> c.title == spec_default_title()
            &&& spec_find(doc, FieldKey::Fullscreen) is None ==> c.fullscreen is None
            &&& spec_find(doc, FieldKey::Dimensions) is None ==> c.dimensions is None
            &&& spec_find(doc, FieldKey::MinDimensions) is None ==> c.min_dimensions is None
            &&& spec_find(doc, FieldKey::MaxDimensions) is None ==> c.max_dimensions is None
            &&& spec_find(doc, FieldKey::Visibility) is None ==> c.visibility == true
            &&& spec_find(doc, FieldKey::AlwaysOnTop) is None ==> c.always_on_top == false
            &&& spec_find(doc, FieldKey::Decorations) is None ==> c.decorations == true
            &&& spec_find(doc, FieldKey::Maximized) is None ==> c.maximized == false
            &&& spec_find(doc, FieldKey::Multitouch) is None ==> c.multitouch == false
            &&& spec_find(doc, FieldKey::Resizable) is None ==> c.resizable == true
            &&& spec_find(doc, FieldKey::Transparent) is None ==> c.transparent == false
        },
{
}

/// Law: an empty document deserializes to exactly the default-constructed
/// configuration, field for field.
pub proof fn lemma_empty_document_defaults()
    ensures
        spec_from_document(Seq::<DocumentEntryView>::empty()) == Ok::<DisplayConfigView, FieldKey>(
            spec_default_config(),
        ),
{
}

/// Law: serializing a configuration and deserializing the result yields an
/// equal record, over all twelve fields.
pub proof fn lemma_round_trip(c: DisplayConfigView)
    ensures
        spec_from_document(spec_to_document(c)) == Ok::<DisplayConfigView, FieldKey>(c),
{
    reveal_with_fuel(spec_find_from, 14);
    let doc = spec_to_document(c);
    assert(spec_find(doc, FieldKey::Title) == Some(FieldValueView::Text(c.title)));
    assert(spec_find(doc, FieldKey::Fullscreen) == Some(spec_ident_value(c.fullscreen)));
    assert(spec_find(doc, FieldKey::Dimensions) == Some(spec_pair_value(c.dimensions)));
    assert(spec_find(doc, FieldKey::MinDimensions) == Some(spec_pair_value(c.min_dimensions)));
    assert(spec_find(doc, FieldKey::MaxDimensions) == Some(spec_pair_value(c.max_dimensions)));
    assert(spec_find(doc, FieldKey::Visibility) == Some(FieldValueView::Flag(c.visibility)));
    assert(spec_find(doc, FieldKey::AlwaysOnTop) == Some(FieldValueView::Flag(c.always_on_top)));
    assert(spec_find(doc, FieldKey::Decorations) == Some(FieldValueView::Flag(c.decorations)));
    assert(spec_find(doc, FieldKey::Maximized) == Some(FieldValueView::Flag(c.maximized)));
    assert(spec_find(doc, FieldKey::Multitouch) == Some(FieldValueView::Flag(c.multitouch)));
    assert(spec_find(doc, FieldKey::Resizable) == Some(FieldValueView::Flag(c.resizable)));
    assert(spec_find(doc, FieldKey::Transparent) == Some(FieldValueView::Flag(c.transparent)));
    assert(spec_config_values(doc) == c);
}

/// The written form of an optional pixel pair.
fn pair_value(o: Option<(u32, u32)>) -> (r: FieldValue)
    ensures
        r@ == spec_pair_value(o),
{
    match o {
        None => FieldValue::Null,
        Some((w, h)) => FieldValue::Pair(w, h),
    }
}

} // verus!
