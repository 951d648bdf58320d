use nfe_repository::config::{parse_database_url, DatabaseUrl};

fn parts(username: &str, password: &str, connect_string: &str) -> Option<DatabaseUrl> {
    Some(DatabaseUrl {
        username: username.to_string(),
        password: password.to_string(),
        connect_string: connect_string.to_string(),
    })
}

#[test]
fn a_well_formed_address_gives_its_three_parts() {
    assert_eq!(
        parse_database_url("oracle://scott:tiger@//localhost:1521/XEPDB1"),
        parts("scott", "tiger", "//localhost:1521/XEPDB1")
    );
    assert_eq!(parse_database_url("oracle://u:p@db"), parts("u", "p", "db"));
    assert_eq!(parse_database_url("://:@"), parts("", "", ""));
    assert_eq!(parse_database_url("x://usuário:señha@höst"), parts("usuário", "señha", "höst"));
    assert_eq!(parse_database_url(":///u:p@c"), parts("/u", "p", "c"));
}

#[test]
fn the_connect_string_may_hold_colons_and_slashes() {
    assert_eq!(
        parse_database_url("oracle://u:p@host:1521/service:pooled"),
        parts("u", "p", "host:1521/service:pooled")
    );
}

#[test]
fn an_address_without_its_marks_is_refused() {
    for url in [
        "",
        "oracle",
        "oracle:/u:p@db",
        "oracle//u:p@db",
        "oracle://u:p",
        "oracle://up@db",
        "oracle://@db",
        "u:p@db",
    ] {
        assert_eq!(parse_database_url(url), None, "{url:?}");
    }
}

#[test]
fn an_address_with_a_mark_twice_is_refused() {
    for url in [
        "oracle://u:p@db://x",
        "a://b://u:p@db",
        "oracle://u:p@db@other",
        "oracle://u@x:p@db",
        "oracle://u:p:q@db",
        "oracle://u::p@db",
        "oracle://u:p@@db",
    ] {
        assert_eq!(parse_database_url(url), None, "{url:?}");
    }
}
