use site_supervisor::config::{
    parse_port, resolve, resolve_listen_port, resolve_store_location, StoreSource,
    DEFAULT_LISTEN_PORT,
};

fn text(s: &str) -> Option<String> {
    Some(String::from(s))
}

#[test]
fn environment_wins_over_argument() {
    let choice = resolve_store_location(text("x.db"), text("y.db"));
    assert_eq!(choice.location, "x.db");
    assert_eq!(choice.source, StoreSource::Environment);
}

#[test]
fn argument_is_used_without_environment() {
    let choice = resolve_store_location(None, text("y.db"));
    assert_eq!(choice.location, "y.db");
    assert_eq!(choice.source, StoreSource::Argument);
}

#[test]
fn default_store_when_nothing_is_given() {
    let choice = resolve_store_location(None, None);
    assert_eq!(choice.location, "results.db");
    assert_eq!(choice.source, StoreSource::Fallback);
}

#[test]
fn empty_environment_value_counts_as_unset() {
    let choice = resolve_store_location(text(""), text("y.db"));
    assert_eq!(choice.location, "y.db");
    assert_eq!(choice.source, StoreSource::Argument);
    let choice = resolve_store_location(text(""), None);
    assert_eq!(choice.location, "results.db");
    assert_eq!(choice.source, StoreSource::Fallback);
}

#[test]
fn empty_argument_is_still_an_argument() {
    let choice = resolve_store_location(None, text(""));
    assert_eq!(choice.location, "");
    assert_eq!(choice.source, StoreSource::Argument);
}

#[test]
fn default_port_is_2346() {
    assert_eq!(DEFAULT_LISTEN_PORT, 2346);
    assert_eq!(resolve_listen_port(None), 2346);
}

#[test]
fn port_is_read_from_decimal_text() {
    assert_eq!(parse_port("8080"), Some(8080));
    assert_eq!(parse_port("1"), Some(1));
    assert_eq!(parse_port("65535"), Some(65535));
    assert_eq!(parse_port("+443"), Some(443));
    assert_eq!(parse_port("0008080"), Some(8080));
    assert_eq!(parse_port("000000000000000000000000065535"), Some(65535));
}

#[test]
fn port_text_that_names_no_port_is_refused() {
    assert_eq!(parse_port(""), None);
    assert_eq!(parse_port("+"), None);
    assert_eq!(parse_port("0"), None);
    assert_eq!(parse_port("000"), None);
    assert_eq!(parse_port("65536"), None);
    assert_eq!(parse_port("99999999999999999999999999"), None);
    assert_eq!(parse_port("-1"), None);
    assert_eq!(parse_port("80 "), None);
    assert_eq!(parse_port(" 80"), None);
    assert_eq!(parse_port("8o80"), None);
    assert_eq!(parse_port("++80"), None);
    assert_eq!(parse_port("80+"), None);
    assert_eq!(parse_port("eighty"), None);
    assert_eq!(parse_port("\u{ff18}\u{ff10}"), None);
    assert_eq!(parse_port("80\u{e9}"), None);
}

#[test]
fn parsed_port_agrees_with_the_standard_parser_on_positive_values() {
    let samples = ["1", "22", "+80", "2346", "65535", "65536", "x", "", "+", "00012", "70000"];
    for sample in samples {
        let expected = sample.parse::<u16>().ok().filter(|port| *port > 0);
        assert_eq!(parse_port(sample), expected);
    }
}

#[test]
fn unparseable_port_falls_back_to_default() {
    assert_eq!(resolve_listen_port(text("not-a-port")), 2346);
    assert_eq!(resolve_listen_port(text("")), 2346);
    assert_eq!(resolve_listen_port(text("70000")), 2346);
    assert_eq!(resolve_listen_port(text("0")), 2346);
    assert_eq!(resolve_listen_port(text("3000")), 3000);
}

#[test]
fn whole_configuration_is_resolved_at_once() {
    let config = resolve(text("x.db"), text("y.db"), text("9000"));
    assert_eq!(config.store_location, "x.db");
    assert_eq!(config.store_source, StoreSource::Environment);
    assert_eq!(config.listen_port, 9000);

    let config = resolve(None, None, text("port"));
    assert_eq!(config.store_location, "results.db");
    assert_eq!(config.store_source, StoreSource::Fallback);
    assert_eq!(config.listen_port, 2346);
}
