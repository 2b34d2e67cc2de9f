//! What `#[derive(GeoFfiType)]` generates: conversions between a struct and a native type, field
//! by field.
use vstd::prelude::*;
use crate::text::same_text;

verus! {

/// A text in the source and its place there: the number under which the caller keeps the span.
#[derive(Debug)]
pub struct Spelled {
    pub text: String,
    pub place: usize,
}

pub struct SpelledView {
    pub text: Seq<char>,
    pub place: usize,
}

impl DeepView for Spelled {
    type V = SpelledView;

    open spec fn deep_view(&self) -> SpelledView {
        SpelledView { text: self.text@, place: self.place }
    }
}

impl Spelled {
    fn copy(&self) -> (copy: Self)
        ensures
            copy.deep_view() == self.deep_view(),
    {
        Spelled { text: self.text.clone(), place: self.place }
    }
}

/// What is wrong, and at which place; without a place it is the use of the macro as a whole.
#[derive(Debug)]
pub struct FfiFault {
    pub message: String,
    pub place: Option<usize>,
}

pub struct FfiFaultView {
    pub message: Seq<char>,
    pub place: Option<usize>,
}

impl DeepView for FfiFault {
    type V = FfiFaultView;

    open spec fn deep_view(&self) -> FfiFaultView {
        FfiFaultView { message: self.message@, place: self.place }
    }
}

impl FfiFault {
    fn new(message: &str, place: Option<usize>) -> (fault: Self)
        ensures
            fault.deep_view() == (FfiFaultView { message: message@, place }),
    {
        FfiFault { message: message.to_string(), place }
    }
}

/// An entry of a `geo_ffi` attribute: a key, and the text after it or why there is none.
#[derive(Debug)]
pub struct FfiEntry {
    pub key: Spelled,
    pub value: Result<Spelled, FfiFault>,
}

pub struct FfiEntryView {
    pub key: SpelledView,
    pub value: Result<SpelledView, FfiFaultView>,
}

impl DeepView for FfiEntry {
    type V = FfiEntryView;

    open spec fn deep_view(&self) -> FfiEntryView {
        FfiEntryView {
            key: self.key.deep_view(),
            value: match self.value {
                Ok(text) => Ok(text.deep_view()),
                Err(fault) => Err(fault.deep_view()),
            },
        }
    }
}

/// An attribute: its name, its entries, and what is wrong after them, if anything is.
#[derive(Debug)]
pub struct FfiAttribute {
    pub name: String,
    pub entries: Vec<FfiEntry>,
    pub fault: Option<FfiFault>,
}

pub struct FfiAttributeView {
    pub name: Seq<char>,
    pub entries: Seq<FfiEntryView>,
    pub fault: Option<FfiFaultView>,
}

impl DeepView for FfiAttribute {
    type V = FfiAttributeView;

    open spec fn deep_view(&self) -> FfiAttributeView {
        FfiAttributeView {
            name: self.name@,
            entries: self.entries.deep_view(),
            fault: self.fault.deep_view(),
        }
    }
}

/// A field with its attributes.
#[derive(Debug)]
pub struct FfiField {
    pub name: String,
    pub attributes: Vec<FfiAttribute>,
}

pub struct FfiFieldView {
    pub name: Seq<char>,
    pub attributes: Seq<FfiAttributeView>,
}

impl DeepView for FfiField {
    type V = FfiFieldView;

    open spec fn deep_view(&self) -> FfiFieldView {
        FfiFieldView { name: self.name@, attributes: self.attributes.deep_view() }
    }
}

/// What the derive macro is applied to.
#[derive(Debug)]
pub enum FfiShape {
    NamedFields(Vec<FfiField>),
    OtherFields,
    NoStruct,
}

pub enum FfiShapeView {
    NamedFields(Seq<FfiFieldView>),
    OtherFields,
    NoStruct,
}

impl DeepView for FfiShape {
    type V = FfiShapeView;

    open spec fn deep_view(&self) -> FfiShapeView {
        match self {
            FfiShape::NamedFields(fields) => FfiShapeView::NamedFields(fields.deep_view()),
            FfiShape::OtherFields => FfiShapeView::OtherFields,
            FfiShape::NoStruct => FfiShapeView::NoStruct,
        }
    }
}

/// The text is the path of a type.
pub uninterp spec fn is_type_path(text: Seq<char>) -> bool;

/// `syn::LitStr::parse` into a `syn::Path`: the error, where there is one. How it is worded is left
/// open.
#[verifier::external_body]
fn path_fault(text: &str) -> (fault: Option<String>)
    ensures
        fault is None == is_type_path(text@),
{
    let literal = syn::LitStr::new(text, proc_macro2::Span::call_site());
    literal.parse::<syn::Path>().err().map(|err| err.to_string())
}

/// What the text of an entry must satisfy.
#[derive(Debug, Clone, Copy, PartialEq, Eq, Structural)]
pub enum EntryKind {
    /// The path of a type, under `target`.
    Target,
    /// The name of a field, under `rename`.
    Rename,
}

/// The key of an entry.
pub open spec fn key_of(kind: EntryKind) -> Seq<char> {
    match kind {
        EntryKind::Target => "target"@,
        EntryKind::Rename => "rename"@,
    }
}

/// What is wrong with attributes or fields.
pub enum FaultView {
    /// This is how it is put.
    Worded(FfiFaultView),
    /// The text at this place is not the path of a type, which the parser puts in its own words.
    NoPath(usize),
}

/// Something is wrong at a place, and this is how it is put.
pub open spec fn worded(message: Seq<char>, place: Option<usize>) -> FaultView {
    FaultView::Worded(FfiFaultView { message, place })
}

/// What was found is what is said; the words of the parser are left open.
pub open spec fn says<T: DeepView>(
    found: Result<T, FfiFault>,
    said: Result<<T as DeepView>::V, FaultView>,
) -> bool {
    match (found, said) {
        (Ok(value), Ok(view)) => value.deep_view() == view,
        (Err(fault), Err(FaultView::Worded(view))) => fault.deep_view() == view,
        (Err(fault), Err(FaultView::NoPath(place))) => fault.place == Some(place),
        _ => false,
    }
}

/// What an entry says, or what is wrong with it.
pub open spec fn entry_text(kind: EntryKind, entry: FfiEntryView) -> Result<
    SpelledView,
    FaultView,
> {
    if entry.key.text != key_of(kind) {
        Err(
            worded(
                match kind {
                    EntryKind::Target => "unsupported `geo_ffi` key, expected `target`"@,
                    EntryKind::Rename => "unsupported `geo_ffi` key, expected `rename`"@,
                },
                Some(entry.key.place),
            ),
        )
    } else {
        match entry.value {
            Err(fault) => Err(FaultView::Worded(fault)),
            Ok(spelled) => if kind == EntryKind::Target && !is_type_path(spelled.text) {
                Err(FaultView::NoPath(spelled.place))
            } else {
                Ok(spelled)
            },
        }
    }
}

/// What the entries of an attribute say, of which the last counts, or the first thing that is
/// wrong with them.
pub open spec fn entries_text(kind: EntryKind, entries: Seq<FfiEntryView>) -> Result<
    Option<SpelledView>,
    FaultView,
>
    decreases entries.len(),
{
    if entries.len() == 0 {
        Ok(None)
    } else {
        match entries_text(kind, entries.drop_last()) {
            Err(fault) => Err(fault),
            Ok(_) => match entry_text(kind, entries.last()) {
                Ok(text) => Ok(Some(text)),
                Err(fault) => Err(fault),
            },
        }
    }
}

/// What an attribute says.
pub open spec fn attribute_text(kind: EntryKind, attribute: FfiAttributeView) -> Result<
    Option<SpelledView>,
    FaultView,
> {
    if attribute.name != "geo_ffi"@ {
        Ok(None)
    } else {
        match entries_text(kind, attribute.entries) {
            Err(fault) => Err(fault),
            Ok(text) => match attribute.fault {
                Some(fault) => Err(FaultView::Worded(fault)),
                None => Ok(text),
            },
        }
    }
}

/// What the first attribute that says anything says. What is wrong with an attribute before it is
/// reported; what comes after it is not looked at.
pub open spec fn attributes_text(kind: EntryKind, attributes: Seq<FfiAttributeView>) -> Result<
    Option<SpelledView>,
    FaultView,
>
    decreases attributes.len(),
{
    if attributes.len() == 0 {
        Ok(None)
    } else {
        match attribute_text(kind, attributes[0]) {
            Ok(None) => attributes_text(kind, attributes.skip(1)),
            found => found,
        }
    }
}

/// Reads an entry.
pub fn read_entry(kind: EntryKind, entry: &FfiEntry) -> (text: Result<Spelled, FfiFault>)
    ensures
        says(text, entry_text(kind, entry.deep_view())),
{
    match kind {
        EntryKind::Target => {
            if !same_text(entry.key.text.as_str(), "target") {
                return Err(
                    FfiFault::new(
                        "unsupported `geo_ffi` key, expected `target`",
                        Some(entry.key.place),
                    ),
                );
            }
        },
        EntryKind::Rename => {
            if !same_text(entry.key.text.as_str(), "rename") {
                return Err(
                    FfiFault::new(
                        "unsupported `geo_ffi` key, expected `rename`",
                        Some(entry.key.place),
                    ),
                );
            }
        },
    }
    match &entry.value {
        Err(fault) => Err(FfiFault::new(fault.message.as_str(), fault.place)),
        Ok(spelled) => {
            if kind == EntryKind::Target {
                if let Some(message) = path_fault(spelled.text.as_str()) {
                    return Err(FfiFault { message, place: Some(spelled.place) });
                }
            }
            Ok(spelled.copy())
        },
    }
}

/// What is wrong with the first entries is wrong with all of them.
pub proof fn lemma_fault_stays(kind: EntryKind, entries: Seq<FfiEntryView>, upto: int)
    requires
        0 <= upto <= entries.len(),
        entries_text(kind, entries.take(upto)) is Err,
    ensures
        entries_text(kind, entries) == entries_text(kind, entries.take(upto)),
    decreases entries.len() - upto,
{
    if upto < entries.len() {
        assert(entries.take(upto + 1).drop_last() =~= entries.take(upto));
        lemma_fault_stays(kind, entries, upto + 1);
    } else {
        assert(entries.take(upto) =~= entries);
    }
}

/// Reads an attribute.
pub fn read_attribute(kind: EntryKind, attribute: &FfiAttribute) -> (text: Result<
    Option<Spelled>,
    FfiFault,
>)
    ensures
        says(text, attribute_text(kind, attribute.deep_view())),
{
    if !same_text(attribute.name.as_str(), "geo_ffi") {
        return Ok(None);
    }
    let entries = &attribute.entries;
    let ghost all = entries.deep_view();
    let mut found: Option<Spelled> = None;
    let mut i: usize = 0;
    assert(all.take(0) =~= Seq::empty());
    while i < entries.len()
        invariant
            i <= entries@.len(),
            all == entries.deep_view(),
            *entries == attribute.entries,
            attribute.name@ == "geo_ffi"@,
            entries_text(kind, all.take(i as int)) == Ok::<Option<SpelledView>, FaultView>(
                found.deep_view(),
            ),
        decreases entries@.len() - i,
    {
        proof {
            assert(all.take(i + 1).drop_last() =~= all.take(i as int));
            assert(all.take(i + 1).last() == entries@[i as int].deep_view());
        }
        match read_entry(kind, &entries[i]) {
            Ok(text) => {
                found = Some(text);
            },
            Err(fault) => {
                proof {
                    lemma_fault_stays(kind, all, i + 1);
                }
                return Err(fault);
            },
        }
        i += 1;
    }
    assert(all.take(i as int) =~= all);
    match &attribute.fault {
        Some(fault) => Err(FfiFault::new(fault.message.as_str(), fault.place)),
        None => Ok(found),
    }
}

/// Reads attributes up to the first that says anything.
pub fn read_attributes(kind: EntryKind, attributes: &Vec<FfiAttribute>) -> (text: Result<
    Option<Spelled>,
    FfiFault,
>)
    ensures
        says(text, attributes_text(kind, attributes.deep_view())),
{
    let ghost all = attributes.deep_view();
    let mut i: usize = 0;
    assert(all.skip(0) =~= all);
    while i < attributes.len()
        invariant
            i <= attributes@.len(),
            all == attributes.deep_view(),
            attributes_text(kind, all) == attributes_text(kind, all.skip(i as int)),
        decreases attributes@.len() - i,
    {
        assert(all.skip(i as int)[0] == attributes@[i as int].deep_view());
        assert(all.skip(i as int).skip(1) =~= all.skip(i + 1));
        match read_attribute(kind, &attributes[i]) {
            Ok(None) => {},
            found => {
                return found;
            },
        }
        i += 1;
    }
    Ok(None)
}

/// The native type that a struct is converted to, or why there is none.
pub open spec fn target_of(attributes: Seq<FfiAttributeView>) -> Result<SpelledView, FaultView> {
    match attributes_text(EntryKind::Target, attributes) {
        Ok(Some(path)) => Ok(path),
        Ok(None) => Err(
            worded("GeoFfiType requires #[geo_ffi(target = \"path::to::Type\")]"@, None),
        ),
        Err(fault) => Err(fault),
    }
}

/// Reads `#[geo_ffi(target = "path::to::Type")]` off a struct.
pub fn extract_target(attributes: &Vec<FfiAttribute>) -> (path: Result<Spelled, FfiFault>)
    ensures
        says(path, target_of(attributes.deep_view())),
{
    match read_attributes(EntryKind::Target, attributes) {
        Ok(Some(path)) => Ok(path),
        Ok(None) => Err(
            FfiFault::new("GeoFfiType requires #[geo_ffi(target = \"path::to::Type\")]", None),
        ),
        Err(fault) => Err(fault),
    }
}

/// Reads an optional `#[geo_ffi(rename = "native_name")]` off a field.
pub fn extract_rename(attributes: &Vec<FfiAttribute>) -> (name: Result<Option<Spelled>, FfiFault>)
    ensures
        says(name, attributes_text(EntryKind::Rename, attributes.deep_view())),
{
    read_attributes(EntryKind::Rename, attributes)
}

/// A field and the native field that it is converted to, with the place where the native one is
/// named, unless it has the name of the field.
#[derive(Debug)]
pub struct FieldPair {
    pub field: String,
    pub native: String,
    pub native_place: Option<usize>,
}

pub struct FieldPairView {
    pub field: Seq<char>,
    pub native: Seq<char>,
    pub native_place: Option<usize>,
}

impl DeepView for FieldPair {
    type V = FieldPairView;

    open spec fn deep_view(&self) -> FieldPairView {
        FieldPairView {
            field: self.field@,
            native: self.native@,
            native_place: self.native_place,
        }
    }
}

/// The native field of a field: the one that it is renamed to, or the one of the same name.
pub open spec fn pair_of(field: FfiFieldView) -> Result<FieldPairView, FaultView> {
    match attributes_text(EntryKind::Rename, field.attributes) {
        Ok(Some(native)) => Ok(
            FieldPairView {
                field: field.name,
                native: native.text,
                native_place: Some(native.place),
            },
        ),
        Ok(None) => Ok(
            FieldPairView { field: field.name, native: field.name, native_place: None },
        ),
        Err(fault) => Err(fault),
    }
}

/// The native fields of all fields, or the first thing that is wrong with them.
pub open spec fn pairs_of(fields: Seq<FfiFieldView>) -> Result<Seq<FieldPairView>, FaultView>
    decreases fields.len(),
{
    if fields.len() == 0 {
        Ok(Seq::empty())
    } else {
        match pairs_of(fields.drop_last()) {
            Err(fault) => Err(fault),
            Ok(pairs) => match pair_of(fields.last()) {
                Ok(pair) => Ok(pairs.push(pair)),
                Err(fault) => Err(fault),
            },
        }
    }
}

/// The conversions that are generated: to which type, and between which fields.
#[derive(Debug)]
pub struct Conversions {
    pub target: Spelled,
    pub pairs: Vec<FieldPair>,
}

pub struct ConversionsView {
    pub target: SpelledView,
    pub pairs: Seq<FieldPairView>,
}

impl DeepView for Conversions {
    type V = ConversionsView;

    open spec fn deep_view(&self) -> ConversionsView {
        ConversionsView { target: self.target.deep_view(), pairs: self.pairs.deep_view() }
    }
}

/// The conversions for a struct whose name stands at the given place, or what is wrong with it.
pub open spec fn conversions_of(
    attributes: Seq<FfiAttributeView>,
    name_place: usize,
    shape: FfiShapeView,
) -> Result<ConversionsView, FaultView> {
    match target_of(attributes) {
        Err(fault) => Err(fault),
        Ok(target) => match shape {
            FfiShapeView::NamedFields(fields) => match pairs_of(fields) {
                Ok(pairs) => Ok(ConversionsView { target, pairs }),
                Err(fault) => Err(fault),
            },
            FfiShapeView::OtherFields => Err(
                worded("GeoFfiType only supports structs with named fields"@, Some(name_place)),
            ),
            FfiShapeView::NoStruct => Err(
                worded("GeoFfiType only supports structs"@, Some(name_place)),
            ),
        },
    }
}

/// What is wrong with the first fields is wrong with all of them.
pub proof fn lemma_pair_fault_stays(fields: Seq<FfiFieldView>, upto: int)
    requires
        0 <= upto <= fields.len(),
        pairs_of(fields.take(upto)) is Err,
    ensures
        pairs_of(fields) == pairs_of(fields.take(upto)),
    decreases fields.len() - upto,
{
    if upto < fields.len() {
        assert(fields.take(upto + 1).drop_last() =~= fields.take(upto));
        lemma_pair_fault_stays(fields, upto + 1);
    } else {
        assert(fields.take(upto) =~= fields);
    }
}

/// The native fields of all fields, or the first thing that is wrong with them.
pub fn pair_fields(fields: &Vec<FfiField>) -> (pairs: Result<Vec<FieldPair>, FfiFault>)
    ensures
        says(pairs, pairs_of(fields.deep_view())),
{
    let ghost all = fields.deep_view();
    let mut pairs: Vec<FieldPair> = Vec::new();
    let mut i: usize = 0;
    assert(all.take(0) =~= Seq::empty());
    assert(pairs.deep_view() =~= Seq::empty());
    while i < fields.len()
        invariant
            i <= fields@.len(),
            all == fields.deep_view(),
            pairs_of(all.take(i as int)) == Ok::<Seq<FieldPairView>, FaultView>(
                pairs.deep_view(),
            ),
        decreases fields@.len() - i,
    {
        let ghost known = pairs.deep_view();
        proof {
            assert(all.take(i + 1).drop_last() =~= all.take(i as int));
            assert(all.take(i + 1).last() == fields@[i as int].deep_view());
        }
        let name = fields[i].name.clone();
        let pair = match extract_rename(&fields[i].attributes) {
            Ok(Some(native)) => FieldPair {
                field: name,
                native: native.text,
                native_place: Some(native.place),
            },
            Ok(None) => FieldPair { native: name.clone(), field: name, native_place: None },
            Err(fault) => {
                proof {
                    lemma_pair_fault_stays(all, i + 1);
                }
                return Err(fault);
            },
        };
        assert(pair_of(all[i as int]) == Ok::<FieldPairView, FaultView>(pair.deep_view()));
        pairs.push(pair);
        i += 1;
        assert(pairs.deep_view() =~= known.push(pair.deep_view()));
    }
    assert(all.take(i as int) =~= all);
    Ok(pairs)
}

/// The conversions for a struct whose name stands at the given place, or what is wrong with it.
pub fn derive_conversions(
    attributes: &Vec<FfiAttribute>,
    name_place: usize,
    shape: &FfiShape,
) -> (conversions: Result<Conversions, FfiFault>)
    ensures
        says(conversions, conversions_of(attributes.deep_view(), name_place, shape.deep_view())),
{
    let target = match extract_target(attributes) {
        Ok(target) => target,
        Err(fault) => {
            return Err(fault);
        },
    };
    match shape {
        FfiShape::NamedFields(fields) => match pair_fields(fields) {
            Ok(pairs) => Ok(Conversions { target, pairs }),
            Err(fault) => Err(fault),
        },
        FfiShape::OtherFields => Err(
            FfiFault::new("GeoFfiType only supports structs with named fields", Some(name_place)),
        ),
        FfiShape::NoStruct => Err(
            FfiFault::new("GeoFfiType only supports structs", Some(name_place)),
        ),
    }
}

/// The native value of a struct whose fields have the given values.
pub open spec fn to_native<V>(pairs: Seq<FieldPairView>, value: Map<Seq<char>, V>) -> Map<
    Seq<char>,
    V,
>
    decreases pairs.len(),
{
    if pairs.len() == 0 {
        Map::empty()
    } else {
        to_native(pairs.drop_last(), value).insert(pairs.last().native, value[pairs.last().field])
    }
}

/// The struct of a native value whose fields have the given values.
pub open spec fn from_native<V>(pairs: Seq<FieldPairView>, native: Map<Seq<char>, V>) -> Map<
    Seq<char>,
    V,
>
    decreases pairs.len(),
{
    if pairs.len() == 0 {
        Map::empty()
    } else {
        from_native(pairs.drop_last(), native).insert(
            pairs.last().field,
            native[pairs.last().native],
        )
    }
}

/// No two fields are converted to the same native field.
pub open spec fn distinct_natives(pairs: Seq<FieldPairView>) -> bool {
    forall|i: int, j: int|
        0 <= i < j < pairs.len() ==> (#[trigger] pairs[i]).native != (#[trigger] pairs[j]).native
}

proof fn lemma_to_native<V>(pairs: Seq<FieldPairView>, value: Map<Seq<char>, V>, at: int)
    requires
        distinct_natives(pairs),
        0 <= at < pairs.len(),
    ensures
        to_native(pairs, value)[pairs[at].native] == value[pairs[at].field],
    decreases pairs.len(),
{
    if at < pairs.len() - 1 {
        let rest = pairs.drop_last();
        assert(rest[at] == pairs[at]);
        assert(pairs[at].native != pairs[pairs.len() - 1].native);
        assert(distinct_natives(rest)) by {
            assert forall|i: int, j: int| 0 <= i < j < rest.len() implies (#[trigger] rest[i]).native
                != (#[trigger] rest[j]).native by {
                assert(rest[i] == pairs[i] && rest[j] == pairs[j]);
            }
        }
        lemma_to_native(rest, value, at);
    }
}

proof fn lemma_round_trip<V>(
    pairs: Seq<FieldPairView>,
    value: Map<Seq<char>, V>,
    native: Map<Seq<char>, V>,
)
    requires
        forall|i: int|
            0 <= i < pairs.len() ==> native[(#[trigger] pairs[i]).native] == value[pairs[i].field],
    ensures
        forall|field: Seq<char>| #[trigger]
            from_native(pairs, native).contains_key(field) ==> from_native(pairs, native)[field]
                == value[field],
        forall|i: int|
            0 <= i < pairs.len() ==> from_native(pairs, native).contains_key(
                (#[trigger] pairs[i]).field,
            ),
    decreases pairs.len(),
{
    if pairs.len() > 0 {
        let rest = pairs.drop_last();
        assert forall|i: int| 0 <= i < rest.len() implies native[(#[trigger] rest[i]).native]
            == value[rest[i].field] by {
            assert(rest[i] == pairs[i]);
        }
        lemma_round_trip(rest, value, native);
        assert(native[pairs[pairs.len() - 1].native] == value[pairs[pairs.len() - 1].field]);
        assert forall|field: Seq<char>| #[trigger]
            from_native(pairs, native).contains_key(field) implies from_native(pairs, native)[field]
            == value[field] by {
            if field != pairs.last().field {
                assert(from_native(rest, native).contains_key(field));
            }
        }
        assert forall|i: int| 0 <= i < pairs.len() implies from_native(pairs, native).contains_key(
            (#[trigger] pairs[i]).field,
        ) by {
            if i < rest.len() {
                assert(rest[i] == pairs[i]);
            }
        }
    }
}

/// A struct that is converted to the native type and back has the values that it had, in every
/// field, where no two fields share a native one.
pub proof fn law_conversions_are_inverse<V>(
    pairs: Seq<FieldPairView>,
    value: Map<Seq<char>, V>,
    at: int,
)
    requires
        distinct_natives(pairs),
        0 <= at < pairs.len(),
    ensures
        from_native(pairs, to_native(pairs, value)).contains_key(pairs[at].field),
        from_native(pairs, to_native(pairs, value))[pairs[at].field] == value[pairs[at].field],
{
    assert forall|i: int| 0 <= i < pairs.len() implies to_native(
        pairs,
        value,
    )[(#[trigger] pairs[i]).native] == value[pairs[i].field] by {
        lemma_to_native(pairs, value, i);
    }
    lemma_round_trip(pairs, value, to_native(pairs, value));
}

/// No two fields of a struct have the same name.
pub open spec fn distinct_fields(pairs: Seq<FieldPairView>) -> bool {
    forall|i: int, j: int|
        0 <= i < j < pairs.len() ==> (#[trigger] pairs[i]).field != (#[trigger] pairs[j]).field
}

/// The value has exactly the native fields.
pub open spec fn has_native_fields<V>(pairs: Seq<FieldPairView>, native: Map<Seq<char>, V>) -> bool {
    forall|name: Seq<char>| #[trigger]
        native.contains_key(name) <==> exists|i: int|
            0 <= i < pairs.len() && (#[trigger] pairs[i]).native == name
}

proof fn lemma_from_native<V>(pairs: Seq<FieldPairView>, native: Map<Seq<char>, V>, at: int)
    requires
        distinct_fields(pairs),
        0 <= at < pairs.len(),
    ensures
        from_native(pairs, native)[pairs[at].field] == native[pairs[at].native],
    decreases pairs.len(),
{
    if at < pairs.len() - 1 {
        let rest = pairs.drop_last();
        assert(rest[at] == pairs[at]);
        assert(pairs[at].field != pairs[pairs.len() - 1].field);
        assert(distinct_fields(rest)) by {
            assert forall|i: int, j: int| 0 <= i < j < rest.len() implies (#[trigger] rest[i]).field
                != (#[trigger] rest[j]).field by {
                assert(rest[i] == pairs[i] && rest[j] == pairs[j]);
            }
        }
        lemma_from_native(rest, native, at);
    }
}

proof fn lemma_native_fields<V>(pairs: Seq<FieldPairView>, value: Map<Seq<char>, V>)
    ensures
        has_native_fields(pairs, to_native(pairs, value)),
    decreases pairs.len(),
{
    if pairs.len() > 0 {
        let rest = pairs.drop_last();
        lemma_native_fields(rest, value);
        let made = to_native(pairs, value);
        assert forall|name: Seq<char>| #[trigger] made.contains_key(name) implies exists|i: int|
            0 <= i < pairs.len() && (#[trigger] pairs[i]).native == name by {
            if name == pairs.last().native {
                assert(pairs[pairs.len() - 1].native == name);
            } else {
                assert(to_native(rest, value).contains_key(name));
                let i = choose|i: int| 0 <= i < rest.len() && (#[trigger] rest[i]).native == name;
                assert(pairs[i].native == name);
            }
        }
        assert forall|name: Seq<char>|
            (exists|i: int| 0 <= i < pairs.len() && (#[trigger] pairs[i]).native == name) implies (
        #[trigger] made.contains_key(name)) by {
            let i = choose|i: int| 0 <= i < pairs.len() && (#[trigger] pairs[i]).native == name;
            if i < rest.len() {
                assert(rest[i].native == name);
                assert(to_native(rest, value).contains_key(name));
            }
        }
    }
}

/// A native value that is converted to the struct and back is the value that it was, where no two
/// fields of the struct share a name or a native field and the native type has exactly the fields
/// that the struct is converted to.
pub proof fn law_native_values_are_kept<V>(
    pairs: Seq<FieldPairView>,
    native: Map<Seq<char>, V>,
)
    requires
        distinct_fields(pairs),
        distinct_natives(pairs),
        has_native_fields(pairs, native),
    ensures
        to_native(pairs, from_native(pairs, native)) == native,
{
    let value = from_native(pairs, native);
    let made = to_native(pairs, value);
    lemma_native_fields(pairs, value);
    assert forall|name: Seq<char>| #[trigger] made.contains_key(name) implies made[name]
        == native[name] by {
        let i = choose|i: int| 0 <= i < pairs.len() && (#[trigger] pairs[i]).native == name;
        lemma_to_native(pairs, value, i);
        lemma_from_native(pairs, native, i);
    }
    assert(made.dom() =~= native.dom());
    assert(made =~= native);
}

/// Conversions go field by field: each native field gets the value of its field, and each field
/// gets the value of its native field.
pub proof fn law_conversions_go_field_by_field<V>(
    pairs: Seq<FieldPairView>,
    value: Map<Seq<char>, V>,
    native: Map<Seq<char>, V>,
    at: int,
)
    requires
        distinct_fields(pairs),
        distinct_natives(pairs),
        0 <= at < pairs.len(),
    ensures
        to_native(pairs, value)[pairs[at].native] == value[pairs[at].field],
        from_native(pairs, native)[pairs[at].field] == native[pairs[at].native],
{
    lemma_to_native(pairs, value, at);
    lemma_from_native(pairs, native, at);
}

} // verus!
