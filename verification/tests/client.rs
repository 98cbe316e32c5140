use haystack::client::args::{get_haystack_op, ArgsErr, OpArgs};
use haystack::client::auth::{
    auth_done, auth_final, auth_first, eof, final_message_readable, first_message_readable, hello_header, param,
    parse_params, AuthErr,
};
use haystack::client::config::{get_credentials, parse_destination, ConfigEntry, CredErr, Destination};
use haystack::client::ops::{split_words, FStr, HaystackOpTxRx, HaystackResponse};
use haystack::client::session::{session_url, SessionUrlErr};

fn no_args() -> OpArgs {
    OpArgs {
        filter: None,
        limit: None,
        range: None,
        ids: None,
        timezone: None,
        data: None,
        nav: None,
        create: None,
        watch_id: None,
        lease: None,
        close: None,
        refresh: None,
        stdin_is_tty: true,
        stdin: None,
    }
}

fn body(op: &HaystackOpTxRx) -> Option<String> {
    op.body.as_ref().map(|b: &FStr<'static>| b.to_string())
}

#[test]
fn destination_url() {
    match parse_destination("https://example.com/api/demo").unwrap() {
        Destination::Url(u) => assert_eq!(u, "https://example.com/api/demo"),
        other => panic!("unexpected {:?}", other),
    }
}

#[test]
fn destination_user_at_host() {
    match parse_destination("su@example.com").unwrap() {
        Destination::Host { username, host } => {
            assert_eq!(username, Some("su".to_string()));
            assert_eq!(host, "example.com");
        },
        other => panic!("unexpected {:?}", other),
    }
}

#[test]
fn destination_host_only() {
    match parse_destination("example.com").unwrap() {
        Destination::Host { username, host } => {
            assert_eq!(username, None);
            assert_eq!(host, "example.com");
        },
        other => panic!("unexpected {:?}", other),
    }
}

#[test]
fn destination_two_at_signs_is_refused() {
    assert_eq!(parse_destination("a@b@c").unwrap_err(), "Invalid destination format: a@b@c");
}

fn entry(name: &str, url: Option<&str>) -> ConfigEntry {
    ConfigEntry {
        name: Some(name.to_string()),
        username: Some("cfg_user".to_string()),
        password: Some("cfg_pass".to_string()),
        accept_invalid_certs: Some(false),
        url: url.map(|s| s.to_string()),
    }
}

#[test]
fn credentials_for_url_destination() {
    let dest = parse_destination("https://example.com/api/").unwrap();
    let c = get_credentials(Some(dest), Some("u".into()), Some("p".into()), Some(true), None, None).unwrap();
    assert_eq!(c.username, "u");
    assert_eq!(c.password, "p");
    assert_eq!(c.url, "https://example.com/api/");
    assert!(c.accept_invalid_certs);
}

#[test]
fn credentials_errors_in_order() {
    let dest = || Some(parse_destination("https://example.com/").unwrap());
    assert!(matches!(get_credentials(dest(), None, Some("p".into()), Some(true), None, None), Err(CredErr::UsernameNotProvided)));
    assert!(matches!(get_credentials(dest(), Some("u".into()), None, Some(true), None, None), Err(CredErr::PasswordNotProvided)));
    assert!(matches!(
        get_credentials(dest(), Some("u".into()), Some("p".into()), None, None, None),
        Err(CredErr::AcceptInvalidCertsArgUnresolved)
    ));
    assert!(matches!(get_credentials(None, None, None, None, None, None), Err(CredErr::DestinationNotProvided)));
    assert!(matches!(get_credentials(None, None, None, None, Some(vec![]), None), Err(CredErr::DestinationNotProvided)));
    let host = parse_destination("example.com").unwrap();
    assert!(matches!(get_credentials(Some(host.clone()), None, None, None, None, None), Err(CredErr::NoConfigFile)));
    assert!(matches!(
        get_credentials(Some(host.clone()), None, None, None, Some(vec![entry("other", Some("https://x/"))]), None),
        Err(CredErr::HostNotInConfig)
    ));
    assert!(matches!(
        get_credentials(Some(host.clone()), None, None, None, Some(vec![entry("example.com", None)]), None),
        Err(CredErr::UrlNotInConfig)
    ));
    assert!(matches!(
        get_credentials(Some(host), None, None, None, Some(vec![entry("example.com", Some("not a url"))]), None),
        Err(CredErr::UrlInvalid(_))
    ));
    assert_eq!(CredErr::NoConfigFile.to_string(), "Config file does not exist!");
}

#[test]
fn credentials_from_config_entry() {
    let host = parse_destination("me@example.com").unwrap();
    let c = get_credentials(
        Some(host),
        None,
        None,
        None,
        Some(vec![entry("other", None), entry("example.com", Some("https://example.com/api/demo"))]),
        None,
    )
    .unwrap();
    assert_eq!(c.username, "me");
    assert_eq!(c.password, "cfg_pass");
    assert_eq!(c.url, "https://example.com/api/demo");
    assert!(!c.accept_invalid_certs);
}

#[test]
fn credentials_from_environment() {
    let env = Destination::Env {
        url: "https://env.example/".to_string(),
        username: "envu".to_string(),
        password: "envp".to_string(),
        accept_invalid_certs: true,
        auth_info: None,
    };
    let c = get_credentials(None, Some("cli".into()), None, None, Some(vec![]), Some(env)).unwrap();
    assert_eq!(c.username, "cli");
    assert_eq!(c.password, "envp");
    assert_eq!(c.url, "https://env.example/");
    assert!(c.accept_invalid_certs);
}

#[test]
fn session_url_adds_trailing_slash() {
    assert_eq!(session_url("http://host/api/demo").unwrap(), "http://host/api/demo/");
    assert_eq!(session_url("http://host/api/demo/").unwrap(), "http://host/api/demo/");
    assert!(matches!(session_url("not a url"), Err(SessionUrlErr::Uri(_))));
    assert!(matches!(session_url("mailto:someone@example.com"), Err(SessionUrlErr::CannotBeABase)));
}

#[test]
fn end_of_input() {
    assert_eq!(eof(""), Ok(("", "")));
    assert!(eof("x").is_err());
}

#[test]
fn hello_header_encodes_username() {
    assert_eq!(hello_header("user"), "HELLO username=dXNlcg");
    assert_eq!(hello_header("su"), "HELLO username=c3U");
}

#[test]
fn header_parameters() {
    let ps = parse_params("SCRAM hash=SHA-256, handshakeToken=abc", true).unwrap();
    assert_eq!(param(&ps, "hash").unwrap(), "SHA-256");
    assert_eq!(param(&ps, "handshakeToken").unwrap(), "abc");
    assert!(param(&ps, "data").is_none());
    assert!(parse_params("hash=SHA-256", true).is_none());
    let info = parse_params("authToken=xyz, data=dj1h", false).unwrap();
    assert_eq!(param(&info, "authToken").unwrap(), "xyz");
}

#[test]
fn first_step_errors() {
    assert!(matches!(auth_first("u", "p", None), Err(AuthErr::MissingAuthenticate)));
    assert!(matches!(auth_first("u", "p", Some("garbage")), Err(AuthErr::BadHeader)));
    assert!(matches!(auth_first("u", "p", Some("SCRAM hash=SHA-1")), Err(AuthErr::HashNotSupported)));
    assert_eq!(AuthErr::HashNotSupported.to_string(), "SCRAM: SHA-256 not supported");
}

#[test]
fn first_step_header() {
    let (_state, header) = auth_first("user", "pencil", Some("SCRAM hash=SHA-256, handshakeToken=tok")).unwrap();
    assert!(header.starts_with("SCRAM handshakeToken=tok, data="));
    let (_state, header) = auth_first("user", "pencil", Some("scram hash=SHA-256")).unwrap();
    assert!(header.starts_with("SCRAM data="));
}

#[test]
fn last_step_needs_header() {
    let (state, _) = auth_first("user", "pencil", Some("SCRAM hash=SHA-256")).unwrap();
    let r = haystack::client::auth::auth_final(state, None);
    assert!(matches!(r, Err(AuthErr::MissingAuthenticate)));
    let (state, _) = auth_first("user", "pencil", Some("SCRAM hash=SHA-256")).unwrap();
    let r = haystack::client::auth::auth_final(state, Some("SCRAM handshakeToken=t"));
    assert!(matches!(r, Err(AuthErr::MissingData)));
    let (state, _) = auth_first("user", "pencil", Some("SCRAM hash=SHA-256")).unwrap();
    let r = haystack::client::auth::auth_final(state, Some("SCRAM data=!!!"));
    assert!(matches!(r, Err(AuthErr::Decode(..))));
    let (state, _) = auth_first("user", "pencil", Some("SCRAM hash=SHA-256")).unwrap();
    let r = haystack::client::auth::auth_final(state, Some("SCRAM data=eD0x"));
    assert!(matches!(r, Err(AuthErr::Scram(_))));
}

#[test]
fn split_on_whitespace() {
    assert_eq!(split_words("  @a \n@b\t@c  "), vec!["@a", "@b", "@c"]);
    assert!(split_words("   ").is_empty());
}

#[test]
fn op_about_and_filters() {
    let (op, _rx) = get_haystack_op("about", &no_args()).unwrap();
    assert_eq!(op.op.to_string(), "about");
    assert_eq!(op.method.to_string(), "GET");
    assert!(op.body.is_none());
    let mut a = no_args();
    a.filter = Some("point".into());
    a.limit = Some(10);
    let (op, _rx) = get_haystack_op("defs", &a).unwrap();
    assert_eq!(op.method.to_string(), "POST");
    assert_eq!(body(&op).unwrap(), "ver:\"3.0\"\nfilter,limit\n\"point\",10\n");
    let (op, _rx) = get_haystack_op("ops", &no_args()).unwrap();
    assert_eq!(body(&op).unwrap(), "ver:\"3.0\"\nempty\n");
}

#[test]
fn op_read_by_filter_and_ids() {
    let mut a = no_args();
    a.filter = Some("site".into());
    let (op, _rx) = get_haystack_op("read", &a).unwrap();
    assert_eq!(body(&op).unwrap(), "ver:\"3.0\"\nfilter,limit\n\"site\",\n");
    let mut a = no_args();
    a.ids = Some(vec!["@a".into(), "@b".into()]);
    let (op, _rx) = get_haystack_op("read", &a).unwrap();
    assert_eq!(body(&op).unwrap(), "ver:\"3.0\"\nid\n@a\n@b\n");
    assert_eq!(get_haystack_op("read", &no_args()).unwrap_err(), ArgsErr::MissingFilterOrIds);
}

#[test]
fn op_his_read() {
    let mut a = no_args();
    a.range = Some("yesterday".into());
    a.ids = Some(vec!["@p1".into()]);
    let (op, _rx) = get_haystack_op("hisRead", &a).unwrap();
    assert_eq!(body(&op).unwrap(), "ver:\"3.0\"\nid,range\n@p1,\"yesterday\"");
    a.ids = Some(vec!["@p1".into(), "@p2".into()]);
    a.timezone = Some("Sydney".into());
    let (op, _rx) = get_haystack_op("hisRead", &a).unwrap();
    assert_eq!(body(&op).unwrap(), "ver:\"3.0\" range:\"yesterday\" tz:\"Sydney\"\nid\n@p1\n@p2\n");
    let mut b = no_args();
    b.ids = Some(vec!["@p1".into()]);
    assert_eq!(get_haystack_op("hisRead", &b).unwrap_err(), ArgsErr::MissingRange);
    let mut c = no_args();
    c.range = Some("today".into());
    assert_eq!(get_haystack_op("hisRead", &c).unwrap_err(), ArgsErr::MissingIds);
    c.stdin_is_tty = false;
    c.stdin = Some(" @x\n@y ".into());
    let (op, _rx) = get_haystack_op("hisRead", &c).unwrap();
    assert_eq!(body(&op).unwrap(), "ver:\"3.0\" range:\"today\"\nid\n@x\n@y\n");
}

#[test]
fn op_watches() {
    assert_eq!(get_haystack_op("watchSub", &no_args()).unwrap_err(), ArgsErr::MissingWatchDis);
    let mut a = no_args();
    a.create = Some("test".into());
    a.ids = Some(vec!["@p".into()]);
    let (op, _rx) = get_haystack_op("watchSub", &a).unwrap();
    assert_eq!(body(&op).unwrap(), "ver:\"3.0\" watchDis:\"test\"\nid\n@p\n");
    assert_eq!(get_haystack_op("watchPoll", &no_args()).unwrap_err(), ArgsErr::MissingWatchId);
    let mut p = no_args();
    p.watch_id = Some("w-1".into());
    p.refresh = Some(true);
    let (op, _rx) = get_haystack_op("watchPoll", &p).unwrap();
    assert_eq!(body(&op).unwrap(), "ver:\"3.0\" watchId:\"w-1\" refresh\nempty\n");
    let mut u = no_args();
    u.watch_id = Some("w-1".into());
    u.close = Some(true);
    let (op, _rx) = get_haystack_op("watchUnsub", &u).unwrap();
    assert_eq!(body(&op).unwrap(), "ver:\"3.0\" watchId:\"w-1\" close\nid\n");
}

#[test]
fn op_his_write_nav_and_unknown() {
    assert_eq!(get_haystack_op("hisWrite", &no_args()).unwrap_err(), ArgsErr::MissingHisData);
    let mut a = no_args();
    a.data = Some("ver:\"3.0\"\nts,val\n".into());
    let (op, _rx) = get_haystack_op("hisWrite", &a).unwrap();
    assert_eq!(body(&op).unwrap(), "ver:\"3.0\"\nts,val\n");
    let (op, _rx) = get_haystack_op("nav", &no_args()).unwrap();
    assert_eq!(body(&op).unwrap(), "ver:\"3.0\"\nnavId\n");
    assert_eq!(get_haystack_op("frobnicate", &no_args()).unwrap_err(), ArgsErr::Unsupported);
    assert_eq!(ArgsErr::Unsupported.to_string(), "Subcommand either not supported or doesn't exist");
}

#[test]
fn response_error_grid_is_an_error() {
    let body = "ver:\"3.0\" err dis:\"boom\" errTrace:\"t\"\nempty\n";
    let err = HaystackResponse::Raw(body.to_string());
    assert_eq!(err.as_result::<f64>().unwrap_err().to_string(), body);
    let ok = HaystackResponse::Raw("ver:\"3.0\"\nempty\n".to_string());
    assert_eq!(ok.as_result::<f64>().unwrap().get_raw(), "ver:\"3.0\"\nempty\n");
    let r = HaystackResponse::Raw("x".to_string());
    assert_eq!(r.to_string(), "<HaystackResponse\nx\n>");
}

#[test]
fn response_error_grid_with_numbers_is_an_error() {
    let body = "ver:\"3.0\" err dis:\"boom\" errTrace:\"t\" code:404 at:C(1.5,2)\nempty\n";
    let err = HaystackResponse::Raw(body.to_string());
    assert_eq!(err.as_result::<f64>().unwrap_err().to_string(), body);
}

#[test]
fn server_messages_the_handshake_can_read() {
    assert!(first_message_readable("r=abc,s=c2FsdA==,i=4096"));
    assert!(first_message_readable("x=1"));
    assert!(first_message_readable("a"));
    assert!(!first_message_readable("a,bc"));
    assert!(!first_message_readable("r=x,s"));
    assert!(!first_message_readable("r=x,s=c2FsdA==,"));
    assert!(final_message_readable("v=abc"));
    assert!(final_message_readable("é="));
    assert!(!final_message_readable("aé"));
    assert!(!final_message_readable("€x"));
}

#[test]
fn second_step_refuses_unreadable_server_message() {
    let (state, _) = auth_first("user", "pencil", Some("SCRAM hash=SHA-256")).unwrap();
    let r = auth_final(state, Some("SCRAM data=cj14LHM"));
    assert!(matches!(r, Err(AuthErr::BadHeader)));
}

fn b64(text: &str) -> String {
    base64::encode_config(text.as_bytes(), base64::URL_SAFE_NO_PAD)
}

fn unb64(text: &str) -> String {
    String::from_utf8(base64::decode_config(text, base64::URL_SAFE_NO_PAD).unwrap()).unwrap()
}

#[test]
fn second_step_header_carries_client_final_message() {
    let (state, first) = auth_first("user", "pencil", Some("SCRAM hash=SHA-256")).unwrap();
    let client_first = unb64(first.strip_prefix("SCRAM data=").unwrap());
    let nonce = client_first.strip_prefix("n,,n=user,r=").unwrap().to_string();
    assert_eq!(nonce.len(), 24);
    let server_nonce = format!("{}srv", nonce);
    let server_first = format!("r={},s=c2FsdA==,i=4096", server_nonce);
    let header = format!("SCRAM handshakeToken=tok, data={}", b64(&server_first));
    let (state, next) = auth_final(state, Some(&header)).unwrap();
    let data = next.strip_prefix("SCRAM handshakeToken=tok, data=").unwrap();
    let client_final = unb64(data);
    let prefix = format!("c=biws,r={},p=", server_nonce);
    assert!(client_final.starts_with(&prefix));
    assert_eq!(client_final.len(), prefix.len() + 44);

    let done = auth_done(state, Some(&format!("authToken=xyz, data={}", b64("v=AAAA"))));
    assert!(matches!(done, Err(AuthErr::Scram(_))));
}

#[test]
fn second_step_refuses_foreign_nonce() {
    let (state, _) = auth_first("user", "pencil", Some("SCRAM hash=SHA-256")).unwrap();
    let header = format!("SCRAM data={}", b64("r=someoneelse,s=c2FsdA==,i=4096"));
    assert!(matches!(auth_final(state, Some(&header)), Err(AuthErr::Scram(_))));
}

#[test]
fn last_step_refuses_unreadable_server_message() {
    let (state, first) = auth_first("user", "pencil", Some("SCRAM hash=SHA-256")).unwrap();
    let client_first = unb64(first.strip_prefix("SCRAM data=").unwrap());
    let nonce = client_first.strip_prefix("n,,n=user,r=").unwrap().to_string();
    let header = format!("SCRAM data={}", b64(&format!("r={}s,s=c2FsdA==,i=4096", nonce)));
    let (state, _) = auth_final(state, Some(&header)).unwrap();
    let done = auth_done(state, Some(&format!("authToken=xyz, data={}", b64("aé"))));
    assert!(matches!(done, Err(AuthErr::BadHeader)));
}

#[test]
fn auth_error_messages_carry_the_detail() {
    let (state, _) = auth_first("user", "pencil", Some("SCRAM hash=SHA-256")).unwrap();
    let e = auth_final(state, Some("SCRAM data=!!!")).err().unwrap();
    assert_eq!(e.to_string(), "SCRAM decode: InvalidByte(0, 33), payload: [21, 21, 21]");
    let (state, _) = auth_first("user", "pencil", Some("SCRAM hash=SHA-256")).unwrap();
    let e = auth_final(state, Some("SCRAM data=eD0x")).err().unwrap();
    assert_eq!(e.to_string(), "SCRAM state: Protocol(ExpectedField(Nonce))");
    assert_eq!(AuthErr::MissingData.to_string(), "\"data\" missing from server response");
    let (state, _) = auth_first("user", "pencil", Some("SCRAM hash=SHA-256")).unwrap();
    let e = auth_final(state, Some("SCRAM data=_w")).err().unwrap();
    assert!(matches!(e, AuthErr::NotText(_)));
    assert_eq!(e.to_string(), "SCRAM bytes to str: Utf8Error { valid_up_to: 0, error_len: Some(1) }");
}

#[test]
fn unknown_subcommand_message_names_it() {
    let e = get_haystack_op("bogus", &no_args()).err().unwrap();
    assert_eq!(e.to_string_for("bogus"), "Subcommand \"bogus\" either not supported or doesn't exist");
    assert_eq!(ArgsErr::MissingRange.to_string_for("hisRead"), "hisRead op must have range");
}
