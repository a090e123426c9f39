use wars_core::config::file_loader::{FileLoader, ScriptModule};
use wars_core::config::number_modification::{number_mod_from_conf, update_value_repeatedly, NumberMod};
use wars_core::config::parse::{parse_inner_vec, parse_tuple1, parse_tuple2, string_base, FromConfig};
use wars_core::config::matrix::ratio_cell;
use wars_core::config::ConfigParseError;
use wars_core::fraction::Fraction;

fn chars(s: &str) -> &'static [char] {
    Box::leak(s.chars().collect::<Vec<char>>().into_boxed_slice())
}

fn text(s: &[char]) -> String {
    s.iter().collect()
}

fn no_script<T>(_: usize, _: Option<T>) -> Option<T> {
    None
}

#[test]
fn bools() {
    let loader = FileLoader::new(Vec::new());
    let (v, rest) = bool::from_conf(&chars(" t"), &loader).unwrap();
    assert!(v);
    assert_eq!(text(rest), "");
    let (v, rest) = bool::from_conf(&chars("false x"), &loader).unwrap();
    assert!(!v);
    assert_eq!(text(rest), " x");
    assert!(matches!(bool::from_conf(&chars("yes"), &loader), Err(ConfigParseError::InvalidBool(ref m)) if m == "yes"));
}

#[test]
fn integers() {
    let loader = FileLoader::new(Vec::new());
    let (v, rest) = u16::from_conf(&chars(" 65535 ,"), &loader).unwrap();
    assert_eq!(v, 65535);
    assert_eq!(text(rest), ",");
    assert!(matches!(u16::from_conf(&chars("65536"), &loader), Err(ConfigParseError::InvalidInteger(ref m)) if m == "65536"));
    assert_eq!(i8::from_conf(&chars("-127"), &loader).unwrap().0, -127);
    assert!(matches!(i8::from_conf(&chars("-128"), &loader), Err(ConfigParseError::InvalidInteger(ref m)) if m == "128"));
    assert!(matches!(u8::from_conf(&chars("x1"), &loader), Err(ConfigParseError::InvalidInteger(ref m)) if m == "x1"));
}

#[test]
fn words_and_tuples() {
    let loader = FileLoader::new(Vec::new());
    let (base, rest) = string_base(&chars(" ab cd, x"));
    assert_eq!(text(base), "ab");
    assert_eq!(text(rest), "cd, x");
    let (a, b, rest) = parse_tuple2::<i32, i32>(&chars("(3, 4) rest"), &loader).unwrap();
    assert_eq!((a, b), (3, 4));
    assert_eq!(text(rest), "rest");
    let (a, rest) = parse_tuple1::<u8>(&chars(" 7"), &loader).unwrap();
    assert_eq!(a, 7);
    assert_eq!(text(rest), "");
    assert!(matches!(parse_tuple2::<i32, i32>(&chars("(3"), &loader), Err(ConfigParseError::NotEnoughValues(ref m)) if m == "(3"));
}

#[test]
fn lists() {
    let loader = FileLoader::new(Vec::new());
    let (items, rest) = parse_inner_vec::<u8>(&chars("(1,2) x"), true, &loader).unwrap();
    assert_eq!(items, vec![1, 2]);
    assert_eq!(text(rest), "x");
    let (items, _) = parse_inner_vec::<u8>(&chars("4, 5 ,6"), false, &loader).unwrap();
    assert_eq!(items, vec![4, 5, 6]);
    assert!(matches!(parse_inner_vec::<u8>(&chars("()"), true, &loader), Err(ConfigParseError::EmptyList)));
    assert_eq!(parse_inner_vec::<u8>(&chars(""), false, &loader).unwrap().0, Vec::<u8>::new());
    assert!(matches!(parse_inner_vec::<u8>(&chars("1, a"), false, &loader), Err(ConfigParseError::InvalidInteger(ref m)) if m == "a"));
}

#[test]
fn colors() {
    let loader = FileLoader::new(Vec::new());
    let (c, rest) = <[u8; 4]>::from_conf(&chars("#11223344"), &loader).unwrap();
    assert_eq!(c, [0x11, 0x22, 0x33, 0x44]);
    assert_eq!(text(rest), "");
    assert_eq!(<[u8; 4]>::from_conf(&chars("#1234"), &loader).unwrap().0, [17, 34, 51, 68]);
    let (c, rest) = <[u8; 4]>::from_conf(&chars("abcdefZZ"), &loader).unwrap();
    assert_eq!(c, [0xab, 0xcd, 0xef, 255]);
    assert_eq!(text(rest), "ZZ");
    assert_eq!(<[u8; 4]>::from_conf(&chars("F0a"), &loader).unwrap().0, [255, 0, 170, 255]);
    assert!(matches!(<[u8; 4]>::from_conf(&chars("#12345"), &loader), Err(ConfigParseError::InvalidColor(ref m)) if m == "#12345"));
}

#[test]
fn fractions() {
    let loader = FileLoader::new(Vec::new());
    let (f, rest) = Fraction::from_conf(&chars("6/-4 x"), &loader).unwrap();
    assert_eq!((f.numer(), f.denom()), (-3, 2));
    assert_eq!(text(rest), "x");
    let (f, _) = Fraction::from_conf(&chars("5"), &loader).unwrap();
    assert_eq!((f.numer(), f.denom()), (5, 1));
    assert!(matches!(Fraction::from_conf(&chars("1/0"), &loader), Err(ConfigParseError::DivisionByZero(1))));
    let f = Fraction::new(10, 4);
    assert_eq!((f.numer(), f.denom()), (5, 2));
    assert_eq!(f.scale_round(3), 8);
    assert_eq!(Fraction::new(1, 2).scale_round(5), 3);
    assert_eq!(Fraction::new(1, 2).scale_round(-5), -3);
    assert_eq!(Fraction::new(1, 3).scale_round(4), 1);
    assert_eq!(Fraction::from_integer(7).scale_round(2), 14);
}

#[test]
fn number_mod_grammar() {
    let mut loader = FileLoader::new(Vec::new());
    assert!(matches!(number_mod_from_conf::<u8>(&chars(""), &mut loader), Ok((NumberMod::Keep, _))));
    assert!(matches!(number_mod_from_conf::<u8>(&chars("=5"), &mut loader), Ok((NumberMod::Replace(5), _))));
    assert!(matches!(number_mod_from_conf::<u8>(&chars("+ 3"), &mut loader), Ok((NumberMod::Add(3), _))));
    assert!(matches!(number_mod_from_conf::<i8>(&chars("-2"), &mut loader), Ok((NumberMod::Sub(2), _))));
    match number_mod_from_conf::<u8>(&chars("*3/2"), &mut loader) {
        Ok((NumberMod::Mul(f), _)) => assert_eq!((f.numer(), f.denom()), (3, 2)),
        other => panic!("unexpected {:?}", other),
    }
    match number_mod_from_conf::<u8>(&chars("*1/2+4"), &mut loader) {
        Ok((NumberMod::MulAdd(f, 4), _)) => assert_eq!((f.numer(), f.denom()), (1, 2)),
        other => panic!("unexpected {:?}", other),
    }
    match number_mod_from_conf::<u8>(&chars("*2-1"), &mut loader) {
        Ok((NumberMod::MulSub(f, 1), _)) => assert_eq!((f.numer(), f.denom()), (2, 1)),
        other => panic!("unexpected {:?}", other),
    }
    assert!(matches!(number_mod_from_conf::<u8>(&chars("x 5"), &mut loader), Err(ConfigParseError::InvalidNumberModifier(ref m)) if m == "5"));
    assert!(matches!(number_mod_from_conf::<u8>(&chars("=300"), &mut loader), Err(ConfigParseError::InvalidInteger(ref m)) if m == "300"));
    assert!(matches!(number_mod_from_conf::<u8>(&chars("*1/0"), &mut loader), Err(ConfigParseError::DivisionByZero(1))));
}

#[test]
fn number_mod_scripts() {
    let scripts = vec![ScriptModule {
        filename: chars("mods").to_vec(),
        functions: Ok(vec![(chars("double").to_vec(), 1), (chars("fixed").to_vec(), 0)]),
    }];
    let mut loader = FileLoader::new(scripts);
    let (m, rest) = number_mod_from_conf::<u8>(&chars("Rhai(mods > double) tail"), &mut loader).unwrap();
    assert!(matches!(m, NumberMod::Rhai(0)));
    assert_eq!(text(rest), "tail");
    let (m, _) = number_mod_from_conf::<u8>(&chars("Script(mods>fixed)"), &mut loader).unwrap();
    assert!(matches!(m, NumberMod::RhaiReplace(1)));
    assert!(matches!(number_mod_from_conf::<u8>(&chars("Rhai(mods>other)"), &mut loader),
        Err(ConfigParseError::ScriptFunctionNotFound(ref f, ref n)) if f == "mods" && n == "other"));
}

#[test]
fn number_mod_updates() {
    let half = Fraction::new(1, 2);
    assert_eq!(NumberMod::<u8>::Mul(half).update_value(5, &no_script), 3);
    assert_eq!(NumberMod::<i8>::Mul(half).update_value(-5, &no_script), -3);
    assert_eq!(NumberMod::<u8>::Mul(Fraction::new(2, 1)).update_value(200, &no_script), 255);
    assert_eq!(NumberMod::<i8>::Mul(Fraction::new(3, 1)).update_value(-100, &no_script), -128);
    assert_eq!(NumberMod::<u8>::Add(10).update_value(250, &no_script), 4);
    assert_eq!(NumberMod::<u8>::Sub(5).update_value(3, &no_script), 254);
    assert_eq!(NumberMod::<i32>::Mul(Fraction::new(2, 3)).update_value(7, &no_script), 5);
    assert_eq!(NumberMod::<u32>::MulAdd(half, 1).update_value(4, &no_script), 3);
    assert_eq!(NumberMod::<u32>::MulSub(Fraction::new(3, 1), 2).update_value(4, &no_script), 10);
    assert_eq!(NumberMod::<u8>::Keep.update_value(9, &no_script), 9);
    assert_eq!(NumberMod::<u8>::Replace(1).update_value(9, &no_script), 1);
    let doubling = |_: usize, v: Option<u8>| v.map(|x| x * 2);
    assert_eq!(NumberMod::<u8>::Rhai(0).update_value(4, &doubling), 8);
    assert_eq!(NumberMod::<u8>::Rhai(0).update_value(4, &no_script), 4);
    let fixed = |_: usize, _: Option<u8>| Some(42u8);
    assert_eq!(NumberMod::<u8>::RhaiReplace(0).update_value(4, &fixed), 42);
}

#[test]
fn ignoring_changes() {
    assert!(NumberMod::<u8>::Replace(1).ignores_previous_value());
    assert!(NumberMod::<u8>::RhaiReplace(0).ignores_previous_value());
    assert!(NumberMod::<u8>::Mul(Fraction::new(0, 5)).ignores_previous_value());
    assert!(!NumberMod::<u8>::Mul(Fraction::new(1, 5)).ignores_previous_value());
    assert!(!NumberMod::<u8>::Add(1).ignores_previous_value());
}

#[test]
fn repeated_update_starts_at_last_replacement() {
    let mods = vec![NumberMod::<u8>::Add(5), NumberMod::Replace(10), NumberMod::Add(1)];
    assert_eq!(update_value_repeatedly(0u8, &mods, &no_script), 11);
    let mut all = 0u8;
    for m in &mods {
        all = m.update_value(all, &no_script);
    }
    assert_eq!(all, 11);
    let zeroed = vec![NumberMod::<u8>::Add(5), NumberMod::Mul(Fraction::new(0, 1)), NumberMod::Add(2)];
    assert_eq!(update_value_repeatedly(7u8, &zeroed, &no_script), 2);
    let plain = vec![NumberMod::<i32>::Add(1), NumberMod::Sub(3)];
    assert_eq!(update_value_repeatedly(0i32, &plain, &no_script), -2);
    assert_eq!(update_value_repeatedly(6i32, &Vec::new(), &no_script), 6);
}

#[test]
fn repeated_update_skips_failed_replacement() {
    let mods = vec![NumberMod::<u8>::Add(5), NumberMod::RhaiReplace(0), NumberMod::Add(1)];
    assert_eq!(update_value_repeatedly(0u8, &mods, &no_script), 1);
}

#[test]
fn ratio_cells_with_the_smallest_integer() {
    let cell = |s: &str| ratio_cell(&s.chars().collect::<Vec<char>>());
    let f = cell("-2147483648/3").unwrap();
    assert_eq!((f.numer(), f.denom()), (i32::MIN, 3));
    let f = cell("-2147483648/-2").unwrap();
    assert_eq!((f.numer(), f.denom()), (1073741824, 1));
    let f = cell("-2147483648/-2147483648").unwrap();
    assert_eq!((f.numer(), f.denom()), (1, 1));
    let f = cell("6/-2147483648").unwrap();
    assert_eq!((f.numer(), f.denom()), (-3, 1073741824));
    assert!(matches!(cell("1/-2147483648"), Err(ConfigParseError::InvalidNumber(_))));
    assert!(matches!(cell("-2147483648/-3"), Err(ConfigParseError::InvalidNumber(_))));
    assert!(matches!(cell("1/0"), Err(ConfigParseError::InvalidNumber(_))));
}
