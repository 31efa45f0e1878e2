use prodder::data::Data;
use prodder::json::{display_member, parse, NotJson};

fn shape(v: &Data) -> String {
    match v {
        Data::Null => "null".to_string(),
        Data::Bool(b) => b.to_string(),
        Data::Scalar(text, unsigned) => format!("{text}/{unsigned:?}"),
        Data::Text(text) => format!("{text:?}"),
        Data::List(items) => {
            let parts: Vec<String> = items.iter().map(shape).collect();
            format!("[{}]", parts.join(" "))
        }
        Data::Record(members) => {
            let mut parts: Vec<String> =
                members.iter().map(|(k, v)| format!("{k}:{}", shape(v))).collect();
            parts.sort();
            format!("{{{}}}", parts.join(" "))
        }
    }
}

#[test]
fn json_is_read_as_it_stands() {
    let v = parse(
        br#" {"b":[1,-2,2.5,18446744073709551615,18446744073709551616,[]],
            "a":{"x":null,"y":true,"z":"\u00e9\n"},"a2":false} "#,
    )
    .unwrap();
    assert_eq!(
        shape(&v),
        "{a2:false a:{x:null y:true z:\"\u{e9}\\n\"} b:[1/Some(1) -2/None 2.5/None \
         18446744073709551615/Some(18446744073709551615) 1.8446744073709552e+19/None []]}"
    );
}

#[test]
fn what_is_not_json_has_a_reason() {
    let why = |bytes: &[u8]| match parse(bytes) {
        Ok(v) => panic!("{v:?}"),
        Err(NotJson(text)) => text,
    };
    assert_eq!(why(b"{not json"), "key must be a string at line 1 column 2");
    assert_eq!(why(b""), "EOF while parsing a value at line 1 column 0");
    assert_eq!(why(b"{} x"), "trailing characters at line 1 column 4");
    for bytes in [&b"[1,]"[..], b"\"\xff\"", b"nul", b"{\"a\":\n}"] {
        let cause = serde_json::from_slice::<serde_json::Value>(bytes).unwrap_err().to_string();
        assert_eq!(why(bytes), cause);
    }
}

#[test]
fn the_later_of_two_members_counts() {
    let v = parse(br#"{"a":1,"a":2}"#).unwrap();
    assert_eq!(v.get("a").and_then(Data::as_u64), Some(2));
    let v = Data::Record(vec![
        ("a".to_string(), Data::Bool(false)),
        ("b".to_string(), Data::Null),
        ("a".to_string(), Data::Bool(true)),
    ]);
    assert_eq!(v.get("a").and_then(Data::as_bool), Some(true));
    assert!(v.get("c").is_none());
}

#[test]
fn parts_of_a_document_are_found() {
    let v = parse(br#"{"s":"text","n":7,"l":[true],"o":{"k":"v"},"z":null}"#).unwrap();
    assert_eq!(v.get_str("s"), Some("text"));
    assert_eq!(v.get_str("n"), None);
    assert_eq!(v.get_str("missing"), None);
    assert_eq!(v.get("n").and_then(Data::as_u64), Some(7));
    assert_eq!(v.get("s").and_then(Data::as_u64), None);
    assert_eq!(v.get_list("l").unwrap().len(), 1);
    assert_eq!(v.get_list("l").unwrap()[0].as_bool(), Some(true));
    assert!(v.get_list("o").is_none());
    assert_eq!(v.get("o").and_then(|o| o.get_str("k")), Some("v"));
    assert!(v.get("z").unwrap().as_str().is_none());
    assert!(v.as_list().is_none());
    assert!(Data::Null.get("x").is_none());
}

#[test]
fn members_are_displayed_as_json() {
    let body = br#"{ "errors" : [ { "b" : 1 , "a" : "x\"y" } ], "n": 1e3 }"#;
    assert_eq!(display_member(body, "errors").unwrap(), r#"[{"a":"x\"y","b":1}]"#);
    assert_eq!(display_member(body, "n").unwrap(), "1000.0");
    assert_eq!(display_member(body, "other"), None);
    assert_eq!(display_member(b"[1]", "n"), None);
    assert_eq!(display_member(b"{", "n"), None);
}

#[test]
fn toml_is_read_as_it_stands() {
    let v = prodder::toml_text::parse(
        "a = 1\nb = \"x\"\nc = [true, [\"y\"]]\nd.e = 1979-05-27\n[f]\ng = 2.5\n",
    )
    .unwrap();
    assert_eq!(
        shape(&v),
        "{a:1/None b:\"x\" c:[true [\"y\"]] d:{e:1979-05-27/None} f:{g:2.5/None}}"
    );
    for text in ["a = ", "a = 1\na = 2\n", "[", "\n\nb = 'x"] {
        let cause = toml::from_str::<toml::Table>(text).unwrap_err().to_string();
        assert_eq!(prodder::toml_text::parse(text).unwrap_err().0, cause);
    }
}
