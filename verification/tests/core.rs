use content_service::auth_provider_factory::{AuthProviderFactory, AuthProviderType};
use content_service::error::{GeneralCause, ServiceError};
use content_service::geo_ffi_macro::{
    derive_conversions, extract_rename, extract_target, FfiAttribute, FfiEntry, FfiFault, FfiField,
    FfiShape, Spelled,
};
use content_service::json::Json;
use content_service::order::{sort_pairs, sort_texts};
use content_service::policy_macro::{required_policies, split_words};
use content_service::storage_service::storage_service_trait::Settings;
use content_service::storage_service_factory::{get_adapter_type_from_id, StorageServiceFactory};
use content_service::text;
use content_service::types::AdapterType;

fn settings() -> Settings {
    let text = |s: &str| s.to_string();
    Settings {
        aws_s3_adapter_id_prefix: text("awss"),
        channel_manager_adapter_id_prefix: text("chnl"),
        cdn_adapter_id_prefix: text("cdn"),
        aws_efs_adapter_id_prefix: text("efs"),
        content_id_prefix: text("cont"),
        services_base_url: text(""),
        bunnynet_api_key: text(""),
        bunnynet_pullzone_name_prefix: text(""),
        bunnynet_default_pullzone_id: text(""),
        bunnynet_default_pullzone_token_auth_key: text(""),
        bunny_pull_zone_name: text(""),
        bunny_pull_zone_domain: text(""),
        aws_region: text(""),
        s3_bucket: text(""),
        aws_efs_base_path: text(""),
        unknown_mime_type: text(""),
        pre_signed_url_expiration_time: 0,
    }
}

#[test]
fn storage_services_are_chosen_by_prefix() {
    let factory = StorageServiceFactory::new("s3", "channels", "cdn", "efs");
    let suffix = "01h536gfwffx2rm6pa0xg63337";
    for (prefix, adapter_type, service) in [
        ("awss", AdapterType::AwsS3, "s3"),
        ("chnl", AdapterType::ChannelManager, "channels"),
        ("cdn", AdapterType::Cdn, "cdn"),
        ("efs", AdapterType::AwsEfs, "efs"),
    ] {
        let id = format!("{prefix}_{suffix}");
        assert_eq!(*factory.get_by_id(&settings(), &id).unwrap(), service);
        assert_eq!(*factory.get_by_enum(&adapter_type), service);
        assert_eq!(get_adapter_type_from_id(&settings(), &id), Some(adapter_type));
    }
    for bad in ["cdn", "cdn_", "cdn_short", "other_01h536gfwffx2rm6pa0xg63337", suffix, ""] {
        assert!(matches!(
            factory.get_by_id(&settings(), bad),
            Err(ServiceError::GeneralError(GeneralCause::Plain(m))) if m == "Invalid adapter ID"
        ));
    }
}

#[test]
fn mocks_take_the_place_of_storage_services() {
    let usual = StorageServiceFactory::new("s3", "channels", "cdn", "efs");
    let mocked =
        StorageServiceFactory::new_from_mocks(usual, None, Some("mock"), None, Some("other"));
    assert_eq!(*mocked.get_by_enum(&AdapterType::AwsS3), "s3");
    assert_eq!(*mocked.get_by_enum(&AdapterType::ChannelManager), "mock");
    assert_eq!(*mocked.get_by_enum(&AdapterType::Cdn), "cdn");
    assert_eq!(*mocked.get_by_enum(&AdapterType::AwsEfs), "other");
}

#[test]
fn auth_providers_are_chosen_by_type() {
    let factory = AuthProviderFactory::new("auth0", "clerk");
    assert_eq!(*factory.get_by_enum(&AuthProviderType::Auth0), "auth0");
    assert_eq!(*factory.get_by_enum(&AuthProviderType::Clerk), "clerk");
    let mocked = AuthProviderFactory::new_from_mocks(factory, Some("mock"), None);
    assert_eq!(*mocked.get_by_enum(&AuthProviderType::Auth0), "mock");
    assert_eq!(*mocked.get_by_enum(&AuthProviderType::Clerk), "clerk");
}

#[test]
fn policies_are_listed_in_the_argument() {
    assert_eq!(
        required_policies(r#"policies = "content:read  content:write\tadmin""#).unwrap(),
        vec!["content:read", "content:write", "admin"]
    );
    assert_eq!(required_policies(r#"anything = "a""#).unwrap(), vec!["a"]);
    assert!(required_policies(r#"policies = """#).unwrap().is_empty());
    assert_eq!(required_policies("policies = 7").unwrap_err(), "expected a string literal");
    for bad in ["policies", r#"policies("a")"#] {
        assert_eq!(required_policies(bad).unwrap_err(), "expected `policies = \"...\"`");
    }
    assert!(required_policies("= =").is_err());
}

#[test]
fn words_stand_between_white_space() {
    for text in ["", " ", "a", " a", "a ", "\u{3000}é\nü  b\u{a0}c "] {
        let words: Vec<String> = text.split_whitespace().map(str::to_string).collect();
        assert_eq!(split_words(text), words);
    }
}

#[test]
fn white_space_is_a_fixed_set_of_characters() {
    let white = |c: char| {
        matches!(
            c,
            '\u{9}'..='\u{d}'
                | '\u{20}'
                | '\u{85}'
                | '\u{a0}'
                | '\u{1680}'
                | '\u{2000}'..='\u{200a}'
                | '\u{2028}'
                | '\u{2029}'
                | '\u{202f}'
                | '\u{205f}'
                | '\u{3000}'
        )
    };
    for c in '\u{0}'..=char::MAX {
        assert_eq!(text::trim(&c.to_string()).is_empty(), white(c), "{c:?}");
    }
}

fn spelled(text: &str, place: usize) -> Spelled {
    Spelled { text: text.to_string(), place }
}

fn fault(message: &str, place: usize) -> FfiFault {
    FfiFault { message: message.to_string(), place: Some(place) }
}

fn shown(fault: FfiFault) -> (String, Option<usize>) {
    (fault.message, fault.place)
}

fn at(message: &str, place: usize) -> (String, Option<usize>) {
    (message.to_string(), Some(place))
}

fn entry(key: &str, value: &str) -> FfiEntry {
    FfiEntry { key: spelled(key, 3), value: Ok(spelled(value, 5)) }
}

fn attribute(name: &str, entries: Vec<FfiEntry>) -> FfiAttribute {
    FfiAttribute { name: name.to_string(), entries, fault: None }
}

#[test]
fn conversions_follow_targets_and_renames() {
    let target = vec![
        attribute("doc", vec![entry("hidden", "x")]),
        attribute("geo_ffi", vec![entry("target", "crate::Coordinate")]),
    ];
    let fields = vec![
        FfiField {
            name: "latitude".to_string(),
            attributes: vec![attribute("geo_ffi", vec![entry("rename", "lat")])],
        },
        FfiField { name: "height".to_string(), attributes: vec![] },
    ];
    let conversions = derive_conversions(&target, 8, &FfiShape::NamedFields(fields)).unwrap();
    assert_eq!(conversions.target.text, "crate::Coordinate");
    assert_eq!(conversions.target.place, 5);
    let pairs: Vec<(&str, &str, Option<usize>)> = conversions
        .pairs
        .iter()
        .map(|pair| (pair.field.as_str(), pair.native.as_str(), pair.native_place))
        .collect();
    assert_eq!(pairs, vec![("latitude", "lat", Some(5)), ("height", "height", None)]);

    assert_eq!(
        shown(derive_conversions(&target, 8, &FfiShape::OtherFields).unwrap_err()),
        at("GeoFfiType only supports structs with named fields", 8)
    );
    assert_eq!(
        shown(derive_conversions(&target, 8, &FfiShape::NoStruct).unwrap_err()),
        at("GeoFfiType only supports structs", 8)
    );
    let wrong = vec![FfiField {
        name: "x".to_string(),
        attributes: vec![attribute("geo_ffi", vec![entry("target", "y")])],
    }];
    assert_eq!(
        shown(derive_conversions(&target, 8, &FfiShape::NamedFields(wrong)).unwrap_err()),
        at("unsupported `geo_ffi` key, expected `rename`", 3)
    );
}

#[test]
fn targets_are_required_and_must_be_paths() {
    let of = |entries| vec![attribute("geo_ffi", entries)];
    assert_eq!(
        shown(extract_target(&vec![]).unwrap_err()),
        ("GeoFfiType requires #[geo_ffi(target = \"path::to::Type\")]".to_string(), None)
    );
    assert_eq!(
        shown(extract_target(&of(vec![entry("rename", "x")])).unwrap_err()),
        at("unsupported `geo_ffi` key, expected `target`", 3)
    );
    let no_path = extract_target(&of(vec![entry("target", "1 + 1")])).unwrap_err();
    assert_eq!(no_path.place, Some(5));
    let last = attribute("geo_ffi", vec![entry("target", "a::B"), entry("target", "c::D")]);
    assert_eq!(extract_target(&vec![attribute("geo_ffi", vec![]), last]).unwrap().text, "c::D");
    let broken = FfiAttribute {
        name: "geo_ffi".to_string(),
        entries: vec![entry("target", "a::B")],
        fault: Some(fault("expected `,`", 9)),
    };
    assert_eq!(shown(extract_target(&vec![broken]).unwrap_err()), at("expected `,`", 9));
    let missing = FfiEntry { key: spelled("rename", 3), value: Err(fault("expected `=`", 4)) };
    assert_eq!(shown(extract_rename(&of(vec![missing])).unwrap_err()), at("expected `=`", 4));
    assert!(extract_rename(&vec![attribute("serde", vec![entry("x", "y")])]).unwrap().is_none());
}

#[test]
fn texts_are_put_in_order() {
    let texts = |list: &[&str]| list.iter().map(|s| s.to_string()).collect::<Vec<_>>();
    assert_eq!(
        sort_texts(texts(&["b", "", "ab", "a", "é", "B", "a"])),
        texts(&["", "B", "a", "a", "ab", "b", "é"])
    );
    let pairs = vec![("b".to_string(), "1".to_string()), ("a".to_string(), "2".to_string())];
    assert_eq!(
        sort_pairs(&pairs),
        vec![("a".to_string(), "2".to_string()), ("b".to_string(), "1".to_string())]
    );
}

#[test]
fn texts_are_searched_and_split() {
    assert_eq!(text::find("añb::c", "::"), Some(3));
    assert_eq!(text::find("abc", "x"), None);
    assert!(text::contains("abc", "bc") && text::contains("abc", ""));
    assert!(text::starts_with("abc", "ab") && !text::starts_with("a", "ab"));
    assert_eq!(text::strip_prefix("s3://b", "s3://").as_deref(), Some("b"));
    assert_eq!(text::strip_prefix("b", "s3://"), None);
    assert_eq!(text::split("a&b&&c", "&"), vec!["a", "b", "", "c"]);
    assert_eq!(text::split("a:::b", "::"), vec!["a", ":b"]);
    assert_eq!(text::split("", "&"), vec![""]);
    assert_eq!(text::join(&text::split("a&b&&c", "&"), "&"), "a&b&&c");
    assert_eq!(text::text_after_last("a/b/c", '/'), "c");
    assert_eq!(text::text_after_last("abc", '/'), "abc");
    assert_eq!(text::replace("a b  c", ' ', "--"), "a--b----c");
    assert_eq!(text::take_chars("éab", 2), "éa");
    assert_eq!(text::trim(" \u{2003}a b\n"), "a b");
    assert!(text::not_after("a", "ab") && text::not_after("a", "a") && !text::not_after("b", "a"));
}

#[test]
fn numbers_are_written_and_read() {
    for n in [0, 7, 10, 1234567890, u64::MAX] {
        assert_eq!(text::decimal_text(n), n.to_string());
        assert_eq!(text::parse_number(&n.to_string()), Some(n));
    }
    for text in ["", "+", "-1", " 1", "1 ", "1_0", "18446744073709551616", "+5", "007", "٣"] {
        assert_eq!(text::parse_number(text), text.parse::<u64>().ok(), "{text}");
    }
}

#[test]
fn documents_are_read_and_written() {
    let json = Json::parse(r#"{"b":[1,2.5,null,true],"a":{"x":"y"},"a":{"x":"z"}}"#).unwrap();
    assert_eq!(json.to_text(), r#"{"a":{"x":"z"},"b":[1,2.5,null,true]}"#);
    assert_eq!(json.copy().to_text(), json.to_text());
    assert_eq!(json.get("a").unwrap().text_at("x").as_deref(), Some("z"));
    assert_eq!(json.get("b").unwrap().as_array().unwrap().len(), 4);
    assert!(json.get("c").is_none());
    assert_eq!(json.member("c").to_text(), "null");
    assert_eq!(json.text_at("a"), None);
    assert_eq!(
        json.to_debug(),
        r#"Object {"a": Object {"x": String("z")}, "b": Array [Number(1), Number(2.5), Null, Bool(true)]}"#
    );
    assert_eq!(Json::parse("nope").unwrap_err(), "expected ident at line 1 column 2");
    assert_eq!(Json::decode(&vec![0xff]).unwrap_err(), "expected value at line 1 column 1");
    assert_eq!(Json::decode(&b"[7]".to_vec()).unwrap().to_text(), "[7]");
}

#[test]
fn entries_are_added_and_replaced() {
    let json = Json::object()
        .with("a", Json::of_number(1))
        .with("b", Json::of_item(Json::of_text("x")))
        .with("a", Json::Bool(false));
    assert_eq!(json.to_text(), r#"{"a":false,"b":["x"]}"#);
    assert_eq!(Json::Null.with("a", Json::Null).to_text(), "null");
}

#[test]
fn documents_go_to_serde_and_back() {
    let value: serde_json::Value = serde_json::from_str(r#"{"a":[1,{"b":null}],"c":"d"}"#).unwrap();
    let json = Json::from_value(value.clone());
    assert_eq!(json.to_value(), value);
    let repeated = json.with("c", Json::Bool(true)).with("c", Json::of_number(7));
    assert_eq!(repeated.to_text(), r#"{"a":[1,{"b":null}],"c":7}"#);
    assert_eq!(repeated.copy().to_text(), repeated.to_text());
}
