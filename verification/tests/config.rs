use prodder::config::{
    Behaviors, Config, ConfigError, FileRead, Filter, NotConfig, ResolveError, Users, CONFIG_PATH,
    DEPENDABOT_LOGIN,
};
use prodder::data::Data;

#[test]
fn default_roundtrip() {
    let cfg = Config::default();
    let s = cfg.to_toml();
    let back: Config = Config::from_toml(&s).unwrap();
    assert_eq!(cfg, back);
}

#[test]
fn missing_file_is_default() {
    let cfg = Config::load_from("prodder-missing-config.toml", FileRead::NotFound).unwrap();
    assert_eq!(cfg, Config::default());
}

#[test]
fn users_wildcard_distinct_from_explicit() {
    let star = Users(vec!["*".into()]);
    let explicit = Users(vec!["octocat".into()]);
    let empty = Users(vec![]);
    assert!(star.is_wildcard());
    assert!(!explicit.is_wildcard());
    assert!(empty.is_empty());
    assert!(!star.is_empty());
    assert_ne!(star, explicit);
}

#[test]
fn default_users_includes_dependabot() {
    let users = Users::default();
    assert!(
        users.0.iter().any(|u| u == DEPENDABOT_LOGIN),
        "Users::default() should include {DEPENDABOT_LOGIN}; \
             got {:?}",
        users.0,
    );
    // The default is *not* the "empty: derive from PAT" sentinel, which is a
    // distinct, explicit operator choice.
    assert!(!users.is_empty());
}

#[test]
fn default_users_renders_filter_with_dependabot_author() {
    let cfg = Config::default();
    let rendered = cfg.filter.render(&cfg.users.0);
    assert!(
        rendered.contains(&format!("author:{DEPENDABOT_LOGIN}")),
        "default filter should target dependabot; got {rendered:?}",
    );
    assert_eq!(rendered, "is:pr is:open author:dependabot[bot]");
}

#[test]
fn filter_default_uses_resolved_users() {
    let f = Filter::default();
    let users = vec!["alice".to_string(), "bob".to_string()];
    assert_eq!(f.render(&users), "is:pr is:open author:alice author:bob");
}

#[test]
fn filter_wildcard_user_is_skipped_in_default_render() {
    let f = Filter::default();
    let users = vec!["*".to_string()];
    assert_eq!(f.render(&users), "is:pr is:open");
}

#[test]
fn filter_explicit_is_passed_through() {
    let f = Filter("is:pr is:open repo:example/x".to_string());
    assert_eq!(f.render(&[]), "is:pr is:open repo:example/x");
}

#[test]
fn behavior_toggles_each_flip() {
    let mut b = Behaviors::default();
    assert!(b.required_status_checks);
    assert!(b.mergeable_state);
    assert!(b.update_branch);
    b.required_status_checks = false;
    assert_eq!(
        b,
        Behaviors {
            required_status_checks: false,
            mergeable_state: true,
            update_branch: true,
        }
    );
    b = Behaviors::default();
    b.mergeable_state = false;
    assert_eq!(
        b,
        Behaviors {
            required_status_checks: true,
            mergeable_state: false,
            update_branch: true,
        }
    );
    b = Behaviors::default();
    b.update_branch = false;
    assert_eq!(
        b,
        Behaviors {
            required_status_checks: true,
            mergeable_state: true,
            update_branch: false,
        }
    );
}

#[test]
fn partial_toml_fills_defaults() {
    let parsed: Config = Config::from_toml("users = [\"octocat\"]\n").unwrap();
    assert_eq!(parsed.users.0, vec!["octocat".to_string()]);
    assert_eq!(parsed.filter, Filter::default());
    assert_eq!(parsed.behaviors, Behaviors::default());
}

#[test]
fn unknown_field_rejected() {
    let err: Result<Config, _> = Config::from_toml("nonsense = true\n");
    assert!(err.is_err());
}

#[test]
fn empty_text_is_the_default() {
    assert_eq!(Config::from_toml(""), Ok(Config::default()));
    assert_eq!(Config::from_toml("# nothing is set\n"), Ok(Config::default()));
    assert_eq!(Config::from_data(&Data::Record(vec![])).unwrap(), Config::default());
}

#[test]
fn full_toml_is_read_field_by_field() {
    let cfg = Config::from_toml(
        "filter = \"is:pr label:x\"\nusers = []\n[behaviors]\nmergeable_state = false\n",
    )
    .unwrap();
    assert_eq!(
        cfg,
        Config {
            users: Users(vec![]),
            filter: Filter("is:pr label:x".to_string()),
            behaviors: Behaviors {
                required_status_checks: true,
                mergeable_state: false,
                update_branch: true,
            },
        }
    );
}

#[test]
fn behaviors_may_be_given_in_order() {
    let cfg = Config::from_toml("behaviors = [false, true]\n").unwrap();
    assert!(!cfg.behaviors.required_status_checks);
    assert!(cfg.behaviors.mergeable_state);
    assert!(cfg.behaviors.update_branch);
    let cfg = Config::from_toml("behaviors = [true, true, false, 4]\n").unwrap();
    assert!(!cfg.behaviors.update_branch);
    assert_eq!(Config::from_toml("behaviors = [1]\n"), Err(NotConfig::Shape));
}

#[test]
fn what_is_no_configuration_is_rejected() {
    for text in [
        "users = \"octocat\"\n",
        "users = [1]\n",
        "filter = 3\n",
        "filter = [\"x\"]\n",
        "behaviors = true\n",
        "behaviors = 1979-05-27\n",
        "[behaviors]\nupdate_branch = \"yes\"\n",
        "[behaviors]\nunknown = true\n",
        "[filter]\n",
    ] {
        assert_eq!(Config::from_toml(text), Err(NotConfig::Shape), "{text}");
    }
    for text in ["users = [\n", "users = [\"a\"]\nusers = [\"b\"]\n", "?"] {
        let cause = toml::from_str::<toml::Table>(text).unwrap_err().to_string();
        assert_eq!(Config::from_toml(text), Err(NotConfig::Syntax(cause)), "{text}");
    }
}

#[test]
fn awkward_strings_survive_the_file() {
    let cfg = Config {
        users: Users(vec![
            "".to_string(),
            "\"quoted\"".to_string(),
            "it's".to_string(),
            "back\\slash".to_string(),
            "tab\there".to_string(),
            "'''\"\"\"".to_string(),
            "\n\r\n\u{0}\u{7f}\u{1b}".to_string(),
            "\nends with quotes\"\"".to_string(),
            "caf\u{e9} \u{1f600} \u{feff}".to_string(),
            "# no comment".to_string(),
            "'\\\"".to_string(),
            "\\\nends with quotes''".to_string(),
            "''\\\n'".to_string(),
            "\"\"\\\t'\"\"\"\"".to_string(),
        ]),
        filter: Filter("line one\nline two \\ \"\"\" '''\n".to_string()),
        behaviors: Behaviors {
            required_status_checks: false,
            mergeable_state: true,
            update_branch: false,
        },
    };
    assert_eq!(Config::from_toml(&cfg.to_toml()), Ok(cfg));
}

#[test]
fn every_combination_survives_the_file() {
    for bits in 0..8u8 {
        let cfg = Config {
            users: Users(vec!["u".repeat(bits as usize); bits as usize]),
            filter: Filter(" ".repeat(bits as usize)),
            behaviors: Behaviors {
                required_status_checks: bits & 1 == 0,
                mergeable_state: bits & 2 == 0,
                update_branch: bits & 4 == 0,
            },
        };
        assert_eq!(Config::from_toml(&cfg.to_toml()), Ok(cfg));
    }
}

fn contents(text: &str, complaint: &str) -> FileRead {
    FileRead::Contents { text: text.to_string(), complaint: complaint.to_string() }
}

#[test]
fn loading_reports_what_went_wrong() {
    let read = FileRead::Failed("denied".to_string());
    let reading = Config::load_from("/etc/prodder.toml", read).unwrap_err();
    assert_eq!(
        reading,
        ConfigError::Reading("/etc/prodder.toml".to_string(), "denied".to_string())
    );
    assert_eq!(reading.message(), "reading /etc/prodder.toml");
    assert_eq!(reading.chain(), "reading /etc/prodder.toml: denied");
    let parsing = Config::load(contents("x = ", "unused")).unwrap_err();
    let cause = toml::from_str::<toml::Table>("x = ").unwrap_err().to_string();
    assert!(cause.contains("TOML parse error at line 1, column 5"), "{cause}");
    assert_eq!(parsing, ConfigError::Parsing("prodder.toml".to_string(), cause.clone()));
    assert_eq!(parsing.message(), "parsing prodder.toml");
    assert_eq!(parsing.chain(), format!("parsing prodder.toml: {cause}"));
    let words = "unknown field `x`, expected one of `users`, `filter`, `behaviors`";
    let shape = Config::load(contents("x = 1", words)).unwrap_err();
    assert_eq!(shape, ConfigError::Parsing("prodder.toml".to_string(), words.to_string()));
    assert_eq!(shape.message(), "parsing prodder.toml");
    assert_eq!(shape.chain(), format!("parsing prodder.toml: {words}"));
    assert_eq!(Config::load(FileRead::NotFound), Ok(Config::default()));
    let cfg = Config::load(contents("users = [\"*\"]", "unused")).unwrap();
    assert!(cfg.users.is_wildcard());
}

#[test]
fn default_path_is_below_the_directory() {
    assert_eq!(CONFIG_PATH, "prodder.toml");
    assert_eq!(Config::default_path("/srv/job"), "/srv/job/prodder.toml");
    assert_eq!(Config::default_path("/"), "/prodder.toml");
    assert_eq!(Config::default_path(""), "prodder.toml");
}

fn answered(body: &[u8]) -> Result<Vec<u8>, String> {
    Ok(body.to_vec())
}

#[test]
fn explicit_users_resolve_to_themselves() {
    let users = Users(vec!["*".to_string(), "octocat".to_string()]);
    let want = Ok(vec!["*".to_string(), "octocat".to_string()]);
    assert_eq!(users.resolve(&Err("not asked".to_string())), want);
    assert_eq!(users.resolve(&answered(br#"{"login":"me"}"#)), want);
    assert_eq!(users.resolve(&answered(b"{not json")), want);
}

#[test]
fn empty_users_resolve_to_the_token_owner() {
    let users = Users(vec![]);
    assert_eq!(
        users.resolve(&answered(br#"{"id":1,"login":"octocat"}"#)),
        Ok(vec!["octocat".to_string()])
    );
    let request = users.resolve(&Err("refused".to_string())).unwrap_err();
    assert_eq!(request, ResolveError::Request("refused".to_string()));
    let parse = users.resolve(&answered(b"[1")).unwrap_err();
    let cause = "EOF while parsing a list at line 1 column 2";
    assert_eq!(parse, ResolveError::Parse(cause.to_string()));
    assert_eq!(users.resolve(&answered(br#"{"login":7}"#)), Err(ResolveError::MissingLogin));
    assert_eq!(users.resolve(&answered(b"[]")), Err(ResolveError::MissingLogin));
    let user = Data::Record(vec![("login".to_string(), Data::Text("me".to_string()))]);
    assert_eq!(users.resolve_for(&user), Ok(vec!["me".to_string()]));
    let context = "resolving users from PAT via GET /user";
    for e in [&request, &parse, &ResolveError::MissingLogin] {
        assert_eq!(e.message(), context);
    }
    assert_eq!(request.chain(), format!("{context}: GET /user: refused"));
    assert_eq!(parse.chain(), format!("{context}: parse /user: {cause}"));
    assert_eq!(
        ResolveError::MissingLogin.chain(),
        format!("{context}: /user response missing `login`")
    );
}

#[test]
fn blank_filter_counts_as_unset() {
    let users = vec!["alice".to_string(), "*".to_string(), "bob".to_string()];
    for blank in ["", " ", "\t\r\n", "\u{a0}\u{3000}\u{2028}"] {
        assert_eq!(
            Filter(blank.to_string()).render(&users),
            "is:pr is:open author:alice author:bob"
        );
    }
    assert_eq!(Filter(" x ".to_string()).render(&users), " x ");
    assert_eq!(Filter("\u{200b}".to_string()).render(&users), "\u{200b}");
}

#[test]
fn spelled_out_defaults_are_the_default() {
    let example = "\
# Whose pull requests to look at.
users = [\"dependabot[bot]\"]
# A search that takes the place of the one for the users.
filter = \"\"

# What to do about them.
[behaviors]
# Demote what fails its checks.
required_status_checks = true
# Demote what conflicts with its base.
mergeable_state = true
# Update what is behind its base.
update_branch = true
";
    assert_eq!(Config::from_toml(example), Ok(Config::default()));
}

#[test]
fn fields_are_written_in_the_order_of_their_declaration() {
    assert_eq!(
        Config::default().to_toml(),
        "users = [\"dependabot[bot]\"]\nfilter = \"\"\n\n[behaviors]\n\
         required_status_checks = true\nmergeable_state = true\nupdate_branch = true\n"
    );
}
