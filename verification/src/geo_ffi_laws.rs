//! What `#[derive(GeoFfiType)]` reads off a struct.
use vstd::prelude::*;
use crate::geo_ffi_macro::{
    attribute_text, attributes_text, derive_conversions, entries_text, extract_rename,
    extract_target, is_type_path, lemma_fault_stays, lemma_pair_fault_stays, pair_of, pairs_of,
    read_entry, Conversions, EntryKind, FaultView, FfiAttribute, FfiAttributeView, FfiEntry,
    FfiEntryView, FfiFault, FfiFieldView, FfiShape, FieldPairView, Spelled, SpelledView,
};

verus! {

/// An attribute that has nothing to say of the conversions: another one, or an empty one.
pub open spec fn says_nothing(attribute: FfiAttributeView) -> bool {
    attribute.name != "geo_ffi"@ || (attribute.entries.len() == 0 && attribute.fault is None)
}

/// An entry with the key, and with a text that can stand there.
pub open spec fn is_entry(key: Seq<char>, entry: FfiEntryView) -> bool {
    &&& entry.key.text == key
    &&& entry.value matches Ok(spelled)
    &&& key == "target"@ ==> is_type_path(spelled.text)
}

/// An attribute without a fault whose entries all have the key, of which the last has the text.
pub open spec fn gives(key: Seq<char>, attribute: FfiAttributeView, text: SpelledView) -> bool {
    &&& attribute.name == "geo_ffi"@
    &&& attribute.fault is None
    &&& attribute.entries.len() > 0
    &&& forall|i: int|
        0 <= i < attribute.entries.len() ==> is_entry(key, #[trigger] attribute.entries[i])
    &&& attribute.entries.last().value == Ok::<SpelledView, crate::geo_ffi_macro::FfiFaultView>(
        text,
    )
}

/// The text is the one that the first of the attributes with anything to say gives.
pub open spec fn gives_first(
    key: Seq<char>,
    attributes: Seq<FfiAttributeView>,
    text: SpelledView,
    at: int,
) -> bool {
    &&& 0 <= at < attributes.len()
    &&& gives(key, attributes[at], text)
    &&& forall|i: int| 0 <= i < at ==> says_nothing(#[trigger] attributes[i])
}

/// The key of a kind of entry.
pub open spec fn keyword(kind: EntryKind) -> Seq<char> {
    match kind {
        EntryKind::Target => "target"@,
        EntryKind::Rename => "rename"@,
    }
}

proof fn lemma_keywords()
    ensures
        "target"@ != "rename"@,
{
    reveal_strlit("target");
    reveal_strlit("rename");
    assert("target"@[0] == 't' && "rename"@[0] == 'r');
}

proof fn lemma_entries(kind: EntryKind, entries: Seq<FfiEntryView>)
    ensures
        entries.len() == 0 ==> entries_text(kind, entries) == Ok::<Option<SpelledView>, FaultView>(
            None,
        ),
        entries.len() > 0 ==> (entries_text(kind, entries) is Ok <==> forall|i: int|
            0 <= i < entries.len() ==> is_entry(keyword(kind), #[trigger] entries[i])),
        entries.len() > 0 && entries_text(kind, entries) is Ok ==> entries_text(kind, entries)
            == Ok::<Option<SpelledView>, FaultView>(Some(entries.last().value->Ok_0)),
    decreases entries.len(),
{
    lemma_keywords();
    if entries.len() > 0 {
        let front = entries.drop_last();
        lemma_entries(kind, front);
        assert(entries[entries.len() - 1] == entries.last());
        if forall|i: int|
            0 <= i < entries.len() ==> is_entry(keyword(kind), #[trigger] entries[i]) {
            assert forall|i: int| 0 <= i < front.len() implies is_entry(
                keyword(kind),
                #[trigger] front[i],
            ) by {
                assert(front[i] == entries[i]);
            }
        }
        if entries_text(kind, entries) is Ok {
            assert forall|i: int| 0 <= i < entries.len() implies is_entry(
                keyword(kind),
                #[trigger] entries[i],
            ) by {
                if i < front.len() {
                    assert(front[i] == entries[i]);
                }
            }
        }
    }
}

proof fn lemma_attribute(kind: EntryKind, attribute: FfiAttributeView, text: SpelledView)
    ensures
        attribute_text(kind, attribute) == Ok::<Option<SpelledView>, FaultView>(None)
            <==> says_nothing(attribute),
        attribute_text(kind, attribute) == Ok::<Option<SpelledView>, FaultView>(Some(text))
            <==> gives(keyword(kind), attribute, text),
{
    lemma_entries(kind, attribute.entries);
    if gives(keyword(kind), attribute, text) {
        assert(entries_text(kind, attribute.entries) is Ok);
    }
    if attribute_text(kind, attribute) == Ok::<Option<SpelledView>, FaultView>(Some(text)) {
        assert(is_entry(keyword(kind), attribute.entries[attribute.entries.len() - 1]));
    }
}

proof fn lemma_attributes(
    kind: EntryKind,
    attributes: Seq<FfiAttributeView>,
    text: SpelledView,
)
    ensures
        attributes_text(kind, attributes) == Ok::<Option<SpelledView>, FaultView>(None) <==> forall|
            i: int,
        |
            0 <= i < attributes.len() ==> says_nothing(#[trigger] attributes[i]),
        attributes_text(kind, attributes) == Ok::<Option<SpelledView>, FaultView>(Some(text))
            <==> exists|at: int| gives_first(keyword(kind), attributes, text, at),
    decreases attributes.len(),
{
    if attributes.len() > 0 {
        let rest = attributes.skip(1);
        lemma_attributes(kind, rest, text);
        lemma_attribute(kind, attributes[0], text);
        if says_nothing(attributes[0]) {
            if forall|i: int| 0 <= i < rest.len() ==> says_nothing(#[trigger] rest[i]) {
                assert forall|i: int| 0 <= i < attributes.len() implies says_nothing(
                    #[trigger] attributes[i],
                ) by {
                    if i > 0 {
                        assert(rest[i - 1] == attributes[i]);
                    }
                }
            }
            if forall|i: int| 0 <= i < attributes.len() ==> says_nothing(#[trigger] attributes[i]) {
                assert forall|i: int| 0 <= i < rest.len() implies says_nothing(
                    #[trigger] rest[i],
                ) by {
                    assert(rest[i] == attributes[i + 1]);
                }
            }
            if exists|at: int| gives_first(keyword(kind), rest, text, at) {
                let at = choose|at: int| gives_first(keyword(kind), rest, text, at);
                assert forall|i: int| 0 <= i < at + 1 implies says_nothing(
                    #[trigger] attributes[i],
                ) by {
                    if i > 0 {
                        assert(rest[i - 1] == attributes[i]);
                    }
                }
                assert(rest[at] == attributes[at + 1]);
                assert(gives_first(keyword(kind), attributes, text, at + 1));
            }
            if exists|at: int| gives_first(keyword(kind), attributes, text, at) {
                let at = choose|at: int| gives_first(keyword(kind), attributes, text, at);
                assert(at > 0) by {
                    if at == 0 {
                        assert(gives(keyword(kind), attributes[0], text));
                    }
                }
                assert forall|i: int| 0 <= i < at - 1 implies says_nothing(#[trigger] rest[i]) by {
                    assert(rest[i] == attributes[i + 1]);
                }
                assert(rest[at - 1] == attributes[at]);
                assert(gives_first(keyword(kind), rest, text, at - 1));
            }
        } else {
            if gives(keyword(kind), attributes[0], text) {
                assert(gives_first(keyword(kind), attributes, text, 0));
            }
            if exists|at: int| gives_first(keyword(kind), attributes, text, at) {
                let at = choose|at: int| gives_first(keyword(kind), attributes, text, at);
                assert(at == 0) by {
                    if at > 0 {
                        assert(says_nothing(attributes[0]));
                    }
                }
            }
        }
    }
}

/// The native type is the one that the first `geo_ffi` attribute with anything to say names, and it
/// must name one; a field is renamed to what the first one of its own says, and not at all where
/// none says anything.
pub proof fn law_the_first_attribute_counts(
    attributes: &Vec<FfiAttribute>,
    target: Result<Spelled, FfiFault>,
    rename: Result<Option<Spelled>, FfiFault>,
    text: SpelledView,
)
    requires
        call_ensures(extract_target, (attributes,), target),
        call_ensures(extract_rename, (attributes,), rename),
    ensures
        (target matches Ok(found) && found.deep_view() == text) <==> exists|at: int|
            gives_first("target"@, attributes.deep_view(), text, at),
        (rename matches Ok(Some(found)) && found.deep_view() == text) <==> exists|at: int|
            gives_first("rename"@, attributes.deep_view(), text, at),
        rename matches Ok(None) <==> forall|i: int|
            0 <= i < attributes@.len() ==> says_nothing(
                #[trigger] attributes.deep_view()[i],
            ),
        (forall|i: int|
            0 <= i < attributes@.len() ==> says_nothing(#[trigger] attributes.deep_view()[i]))
            ==> (target matches Err(fault) && fault.place is None && fault.message@
            == "GeoFfiType requires #[geo_ffi(target = \"path::to::Type\")]"@),
{
    let all = attributes.deep_view();
    lemma_attributes(EntryKind::Target, all, text);
    lemma_attributes(EntryKind::Rename, all, text);
    assert(keyword(EntryKind::Target) == "target"@);
    assert(keyword(EntryKind::Rename) == "rename"@);
    if let Ok(found) = target {
        lemma_attributes(EntryKind::Target, all, found.deep_view());
    }
    if let Ok(Some(found)) = rename {
        lemma_attributes(EntryKind::Rename, all, found.deep_view());
    }
    assert((exists|at: int| gives_first("target"@, all, text, at)) <==> attributes_text(
        EntryKind::Target,
        all,
    ) == Ok::<Option<SpelledView>, FaultView>(Some(text)));
    assert((exists|at: int| gives_first("rename"@, all, text, at)) <==> attributes_text(
        EntryKind::Rename,
        all,
    ) == Ok::<Option<SpelledView>, FaultView>(Some(text)));
}

proof fn lemma_pairs(fields: Seq<FfiFieldView>, at: int)
    requires
        pairs_of(fields) is Ok,
        0 <= at < fields.len(),
    ensures
        pairs_of(fields)->Ok_0.len() == fields.len(),
        pair_of(fields[at]) == Ok::<FieldPairView, FaultView>(pairs_of(fields)->Ok_0[at]),
    decreases fields.len(),
{
    let front = fields.drop_last();
    if at < front.len() {
        lemma_pairs(front, at);
        assert(front[at] == fields[at]);
    } else if front.len() > 0 {
        lemma_pairs(front, 0);
    } else {
        assert(pairs_of(front)->Ok_0.len() == 0);
    }
}

/// The conversions go to the target of the struct and pair its fields, in order, with native ones:
/// each with the one that it is renamed to, or with the one of its own name. Only a struct with
/// named fields has conversions.
pub proof fn law_fields_are_paired_in_order(
    attributes: &Vec<FfiAttribute>,
    name_place: usize,
    shape: &FfiShape,
    conversions: Result<Conversions, FfiFault>,
    target: Result<Spelled, FfiFault>,
    at: int,
    rename: Result<Option<Spelled>, FfiFault>,
)
    requires
        call_ensures(derive_conversions, (attributes, name_place, shape), conversions),
        call_ensures(extract_target, (attributes,), target),
        shape matches FfiShape::NamedFields(fields) ==> 0 <= at < fields@.len() && call_ensures(
            extract_rename,
            (&fields@[at].attributes,),
            rename,
        ),
    ensures
        target is Err ==> conversions is Err,
        target is Ok && shape is NoStruct ==> (conversions matches Err(fault) && fault.message@
            == "GeoFfiType only supports structs"@ && fault.place == Some(name_place)),
        target is Ok && shape is OtherFields ==> (conversions matches Err(fault) && fault.message@
            == "GeoFfiType only supports structs with named fields"@ && fault.place == Some(
            name_place,
        )),
        conversions matches Ok(conversions) ==> {
            &&& shape matches FfiShape::NamedFields(fields)
            &&& target matches Ok(target)
            &&& conversions.target.deep_view() == target.deep_view()
            &&& conversions.pairs@.len() == fields@.len()
            &&& conversions.pairs@[at].field@ == fields@[at].name@
            &&& rename is Ok
            &&& match rename->Ok_0 {
                Some(native) => conversions.pairs@[at].native@ == native.text@
                    && conversions.pairs@[at].native_place == Some(native.place),
                None => conversions.pairs@[at].native@ == fields@[at].name@
                    && conversions.pairs@[at].native_place is None,
            }
        },
{
    if let Ok(made) = conversions {
        if let FfiShape::NamedFields(fields) = shape {
            lemma_pairs(fields.deep_view(), at);
            assert(fields.deep_view()[at] == fields@[at].deep_view());
            assert(made.pairs.deep_view()[at] == made.pairs@[at].deep_view());
        }
    }
}

/// An entry with the wrong key is refused at the key, one whose value is faulty with that fault,
/// and a target that is no path at its text; any other says its text.
pub proof fn law_entries_are_read(
    kind: EntryKind,
    entry: &FfiEntry,
    text: Result<Spelled, FfiFault>,
)
    requires
        call_ensures(read_entry, (kind, entry), text),
    ensures
        entry.key.text@ != keyword(kind) ==> (text matches Err(fault) && fault.place == Some(
            entry.key.place,
        ) && fault.message@ == (match kind {
            EntryKind::Target => "unsupported `geo_ffi` key, expected `target`"@,
            EntryKind::Rename => "unsupported `geo_ffi` key, expected `rename`"@,
        })),
        entry.key.text@ == keyword(kind) ==> match entry.value {
            Err(wrong) => text matches Err(fault) && fault.deep_view() == wrong.deep_view(),
            Ok(spelled) => if kind is Target && !is_type_path(spelled.text@) {
                text matches Err(fault) && fault.place == Some(spelled.place)
            } else {
                text matches Ok(found) && found.deep_view() == spelled.deep_view()
            },
        },
{
}

proof fn lemma_sound_entries(kind: EntryKind, entries: Seq<FfiEntryView>, upto: int)
    requires
        0 <= upto <= entries.len(),
        forall|i: int| 0 <= i < upto ==> is_entry(keyword(kind), #[trigger] entries[i]),
    ensures
        entries_text(kind, entries.take(upto)) is Ok,
    decreases upto,
{
    lemma_keywords();
    if upto > 0 {
        lemma_sound_entries(kind, entries, upto - 1);
        assert(entries.take(upto).drop_last() =~= entries.take(upto - 1));
        assert(is_entry(keyword(kind), entries[upto - 1]));
        assert(entries.take(upto).last() == entries[upto - 1]);
    } else {
        assert(entries.take(0) =~= Seq::empty());
    }
}

proof fn lemma_skip_silent(kind: EntryKind, attributes: Seq<FfiAttributeView>, at: int)
    requires
        0 <= at < attributes.len(),
        forall|i: int| 0 <= i < at ==> says_nothing(#[trigger] attributes[i]),
        !(attribute_text(kind, attributes[at]) matches Ok(None)),
    ensures
        attributes_text(kind, attributes) == attribute_text(kind, attributes[at]),
    decreases at,
{
    if at > 0 {
        assert(says_nothing(attributes[0]));
        let rest = attributes.skip(1);
        assert forall|i: int| 0 <= i < at - 1 implies says_nothing(#[trigger] rest[i]) by {
            assert(rest[i] == attributes[i + 1]);
        }
        assert(rest[at - 1] == attributes[at]);
        lemma_skip_silent(kind, rest, at - 1);
    }
}

/// The first fault of the first attribute with anything to say is what is wrong with a field: that
/// of its first faulty entry, or its own after entries that are all sound.
pub proof fn law_the_first_fault_counts(
    attributes: &Vec<FfiAttribute>,
    rename: Result<Option<Spelled>, FfiFault>,
    at: int,
    upto: int,
    entry: &FfiEntry,
    text: Result<Spelled, FfiFault>,
)
    requires
        call_ensures(extract_rename, (attributes,), rename),
        0 <= at < attributes@.len(),
        forall|i: int| 0 <= i < at ==> says_nothing(#[trigger] attributes.deep_view()[i]),
        attributes.deep_view()[at].name == "geo_ffi"@,
        0 <= upto <= attributes.deep_view()[at].entries.len(),
        forall|i: int|
            0 <= i < upto ==> is_entry(
                "rename"@,
                #[trigger] attributes.deep_view()[at].entries[i],
            ),
        upto < attributes.deep_view()[at].entries.len() ==> entry.deep_view()
            == attributes.deep_view()[at].entries[upto],
        call_ensures(read_entry, (EntryKind::Rename, entry), text),
    ensures
        upto < attributes.deep_view()[at].entries.len() && text is Err ==> (rename matches Err(
            fault,
        ) && fault.deep_view() == text->Err_0.deep_view()),
        upto == attributes.deep_view()[at].entries.len() ==> (
        attributes.deep_view()[at].fault matches Some(wrong) ==> (rename matches Err(fault)
            && fault.deep_view() == wrong)),
{
    let attribute = attributes.deep_view()[at];
    let entries = attribute.entries;
    assert(keyword(EntryKind::Rename) == "rename"@);
    lemma_sound_entries(EntryKind::Rename, entries, upto);
    if upto < entries.len() {
        if text is Err {
            assert(entries.take(upto + 1).drop_last() =~= entries.take(upto));
            assert(entries.take(upto + 1).last() == entries[upto]);
            lemma_fault_stays(EntryKind::Rename, entries, upto + 1);
            lemma_skip_silent(EntryKind::Rename, attributes.deep_view(), at);
        }
    } else {
        assert(entries.take(upto) =~= entries);
        if attribute.fault is Some {
            lemma_skip_silent(EntryKind::Rename, attributes.deep_view(), at);
        }
    }
}

proof fn lemma_sound_pairs(fields: Seq<FfiFieldView>, upto: int)
    requires
        0 <= upto <= fields.len(),
        forall|i: int| 0 <= i < upto ==> pair_of(#[trigger] fields[i]) is Ok,
    ensures
        pairs_of(fields.take(upto)) is Ok,
    decreases upto,
{
    if upto > 0 {
        lemma_sound_pairs(fields, upto - 1);
        assert(fields.take(upto).drop_last() =~= fields.take(upto - 1));
        assert(fields.take(upto).last() == fields[upto - 1]);
        assert(pair_of(fields[upto - 1]) is Ok);
    } else {
        assert(fields.take(0) =~= Seq::empty());
    }
}

/// A struct with named fields and a target has conversions exactly where every field is either
/// renamed soundly or not at all; otherwise the fault of the first field that is not is reported.
pub proof fn law_sound_structs_are_converted(
    attributes: &Vec<FfiAttribute>,
    name_place: usize,
    shape: &FfiShape,
    conversions: Result<Conversions, FfiFault>,
    target: Result<Spelled, FfiFault>,
    renames: Seq<Result<Option<Spelled>, FfiFault>>,
    upto: int,
)
    requires
        call_ensures(derive_conversions, (attributes, name_place, shape), conversions),
        call_ensures(extract_target, (attributes,), target),
        target is Ok,
        shape matches FfiShape::NamedFields(fields) && {
            &&& renames.len() == fields@.len()
            &&& forall|i: int|
                0 <= i < renames.len() ==> call_ensures(
                    extract_rename,
                    (&fields@[i].attributes,),
                    #[trigger] renames[i],
                )
        },
        0 <= upto <= renames.len(),
        forall|i: int| 0 <= i < upto ==> (#[trigger] renames[i]) is Ok,
    ensures
        upto == renames.len() ==> conversions is Ok,
        upto < renames.len() ==> (renames[upto] matches Err(wrong) ==> (conversions matches Err(
            fault,
        ) && fault.place == wrong.place)),
{
    if let FfiShape::NamedFields(fields) = shape {
        let views = fields.deep_view();
        assert forall|i: int| 0 <= i < renames.len() implies (pair_of(#[trigger] views[i]) is Ok
            <==> renames[i] is Ok) by {
            assert(views[i] == fields@[i].deep_view());
            assert(call_ensures(extract_rename, (&fields@[i].attributes,), renames[i]));
        }
        assert forall|i: int| 0 <= i < upto implies pair_of(#[trigger] views[i]) is Ok by {
            assert(renames[i] is Ok);
        }
        lemma_sound_pairs(views, upto);
        if upto == renames.len() {
            assert(views.take(upto) =~= views);
        } else if renames[upto] is Err {
            assert(views[upto] == fields@[upto].deep_view());
            assert(call_ensures(extract_rename, (&fields@[upto].attributes,), renames[upto]));
            assert(views.take(upto + 1).drop_last() =~= views.take(upto));
            assert(views.take(upto + 1).last() == views[upto]);
            lemma_pair_fault_stays(views, upto + 1);
        }
    }
}

} // verus!
