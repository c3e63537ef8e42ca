use aya_btf_map::{ArgToken, Args, ArgsError, BtfMap};

fn toks(list: &[(&str, &str)]) -> Vec<ArgToken> {
    let mut v = Vec::new();
    for (i, (n, s)) in list.iter().enumerate() {
        if i > 0 {
            v.push(ArgToken::Comma);
        }
        v.push(ArgToken::Ident(n.to_string()));
        v.push(ArgToken::Eq);
        v.push(ArgToken::Str(s.to_string()));
    }
    v
}

fn resolve(list: &[(&str, &str)], ident: &str) -> Result<BtfMap, ArgsError> {
    let args = Args::parse(&toks(list)).unwrap();
    BtfMap::from_syn(args, ident.to_string())
}

#[test]
fn default_name_is_identifier() {
    let m = resolve(&[], "MY_MAP").unwrap();
    assert_eq!(m.name, "MY_MAP");
    assert_eq!(m.ident, "MY_MAP");
}

#[test]
fn given_name_overrides_identifier() {
    let m = resolve(&[("name", "foo")], "MY_MAP").unwrap();
    assert_eq!(m.name, "foo");
    assert_eq!(m.ident, "MY_MAP");
}

#[test]
fn unknown_argument_is_refused_at_its_position() {
    assert_eq!(resolve(&[("size", "4")], "M").err(), Some(ArgsError::Unknown { pos: 0 }));
    assert_eq!(
        resolve(&[("name", "foo"), ("flags", "1")], "M").err(),
        Some(ArgsError::Unknown { pos: 1 })
    );
}

#[test]
fn repeated_name_points_at_second() {
    assert_eq!(
        resolve(&[("name", "a"), ("name", "b")], "M").err(),
        Some(ArgsError::Unknown { pos: 1 })
    );
}

#[test]
fn expansion_places_symbol_in_maps_section() {
    let m = resolve(&[("name", "foo")], "MY_MAP").unwrap();
    let e = m.expand();
    assert_eq!(e.link_section, ".maps");
    assert_eq!(e.export_name, "foo");
    assert_eq!(e.ident, "MY_MAP");
}

#[test]
fn expansion_default_export_name() {
    let e = resolve(&[], "COUNTS").unwrap().expand();
    assert_eq!(e.link_section, ".maps");
    assert_eq!(e.export_name, "COUNTS");
}
