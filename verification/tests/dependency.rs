use pep_508::{
    parse, parser, Comparator, Dependency, Expected, Marker, Operator, Spec, SyntaxError,
    Variable, VersionSpec,
};

fn named(name: &str) -> Dependency {
    Dependency { name: name.to_string(), extras: Vec::new(), spec: None, marker: None }
}

fn clause(comparator: Comparator, version: &str) -> VersionSpec {
    VersionSpec { comparator, version: version.to_string() }
}

fn versions(name: &str, clauses: Vec<VersionSpec>) -> Dependency {
    Dependency { spec: Some(Spec::Version(clauses)), ..named(name) }
}

fn text(s: &str) -> Variable {
    Variable::String(s.to_string())
}

fn test(l: Variable, o: Comparator, r: &str) -> Marker {
    Marker::Operator(l, Operator::Comparator(o), text(r))
}

fn os_name(s: &str) -> Marker {
    test(Variable::OsName, Comparator::Eq, s)
}

fn and(l: Marker, r: Marker) -> Marker {
    Marker::And(Box::new(l), Box::new(r))
}

fn or(l: Marker, r: Marker) -> Marker {
    Marker::Or(Box::new(l), Box::new(r))
}

fn when(name: &str, marker: Marker) -> Dependency {
    Dependency { marker: Some(marker), ..named(name) }
}

fn error(s: &str) -> SyntaxError {
    let mut errors = parse(s).expect_err(s);
    assert_eq!(errors.len(), 1);
    errors.remove(0)
}

#[test]
fn tests_basic() {
    assert_eq!(parse("requests"), Ok(named("requests")));
    assert_eq!(parse("beautifulsoup4"), Ok(named("beautifulsoup4")));
    assert_eq!(parse("Click>=7.0"), Ok(versions("Click", vec![clause(Comparator::Ge, "7.0")])));
    assert_eq!(
        parse("tomli;python_version<'3.11'"),
        Ok(when("tomli", test(Variable::PythonVersion, Comparator::Lt, "3.11")))
    );

    assert!(parse("").is_err());
    assert!(parse("# comment").is_err())
}

#[test]
fn pep() {
    assert_eq!(parse("A"), Ok(named("A")));
    assert_eq!(parse("A.B-C_D"), Ok(named("A.B-C_D")));
    assert_eq!(parse("aa"), Ok(named("aa")));
    assert_eq!(parse("name"), Ok(named("name")));
    assert_eq!(parse("name<=1"), Ok(versions("name", vec![clause(Comparator::Le, "1")])));
    assert_eq!(parse("name>=4"), Ok(versions("name", vec![clause(Comparator::Ge, "4")])));
    assert_eq!(
        parse("name>=3,<2"),
        Ok(versions("name", vec![clause(Comparator::Ge, "3"), clause(Comparator::Lt, "2")]))
    );
    assert_eq!(
        parse("name@http://foo.com"),
        Ok(Dependency { spec: Some(Spec::Url("http://foo.com".to_string())), ..named("name") })
    );
    assert_eq!(
        parse("name [fred,bar] @ http://foo.com ; python_version=='3.7'"),
        Ok(Dependency {
            name: "name".to_string(),
            extras: vec!["fred".to_string(), "bar".to_string()],
            spec: Some(Spec::Url("http://foo.com".to_string())),
            marker: Some(test(Variable::PythonVersion, Comparator::Eq, "3.7")),
        })
    );
    assert_eq!(
        parse("name[quux, strange];python_version<'3.7' and platform_version=='2'"),
        Ok(Dependency {
            name: "name".to_string(),
            extras: vec!["quux".to_string(), "strange".to_string()],
            spec: None,
            marker: Some(and(
                test(Variable::PythonVersion, Comparator::Lt, "3.7"),
                test(Variable::PlatformVersion, Comparator::Eq, "2"),
            )),
        })
    );
    assert_eq!(
        parse("name; os_name=='a' or os_name=='b'"),
        Ok(when("name", or(os_name("a"), os_name("b"))))
    );
    assert_eq!(
        parse("name; os_name=='a' and os_name=='b' or os_name=='c'"),
        Ok(when("name", or(and(os_name("a"), os_name("b")), os_name("c"))))
    );
    assert_eq!(
        parse("name; os_name=='a' and (os_name=='b' or os_name=='c')"),
        Ok(when("name", and(os_name("a"), or(os_name("b"), os_name("c")))))
    );
    assert_eq!(
        parse("name; os_name=='a' or os_name=='b' and os_name=='c'"),
        Ok(when("name", or(os_name("a"), and(os_name("b"), os_name("c")))))
    );
    assert_eq!(
        parse("name; (os_name=='a' or os_name=='b') and os_name=='c'"),
        Ok(when("name", and(or(os_name("a"), os_name("b")), os_name("c"))))
    );
}

#[test]
fn names() {
    for name in ["a", "Z", "0", "a-b", "a_b", "a.b", "a1.b2-c3_d4", "0.0", "x-1"] {
        assert_eq!(parse(name), Ok(named(name)), "{}", name);
    }
    for bad in ["-a", "_a", ".a", "a-", "a_", "a.", "a--b", "a-.b", "a..b", "a b", "a$", "\u{e9}"] {
        assert!(parse(bad).is_err(), "{}", bad);
    }
    // a separator that nothing follows is left where it stands
    assert_eq!(parser("a-"), Ok((named("a"), 1)));
    assert_eq!(parser("a--b"), Ok((named("a"), 1)));
}

#[test]
fn blanks() {
    assert_eq!(parse("  \t name \t "), Ok(named("name")));
    assert_eq!(
        parse(" name  >=  1.0 ,\t<2  "),
        Ok(versions("name", vec![clause(Comparator::Ge, "1.0"), clause(Comparator::Lt, "2")]))
    );
    // a line break is no blank
    assert!(parse("name\n").is_err());
    assert!(parse("\nname").is_err());
    assert!(parse("name \r").is_err());
}

#[test]
fn trailing_input() {
    for s in ["# comment", "", "name #", "name x", "name>=1 x", "name; os_name=='a' x", "name]", "name)"] {
        assert!(parse(s).is_err(), "{}", s);
    }
    // taken from the start, a specifier ends where it ends
    assert_eq!(parser("name x"), Ok((named("name"), 5)));
    assert_eq!(parser("name>=1 x"), Ok((versions("name", vec![clause(Comparator::Ge, "1")]), 8)));
    assert_eq!(parser("  name  "), Ok((named("name"), 8)));
    assert_eq!(parser("\u{e9}"), Err(vec![SyntaxError { offset: 0, expected: vec![] }]));
    assert_eq!(parser("n\u{e9}"), Ok((named("n"), 1)));
    assert!(parser("").is_err());
    assert!(parser("# comment").is_err());
}

#[test]
fn extras() {
    assert_eq!(parse("name").unwrap().extras, Vec::<String>::new());
    assert_eq!(parse("name[fred,bar]").unwrap().extras, vec!["fred", "bar"]);
    assert_eq!(parse("name[bar,fred]").unwrap().extras, vec!["bar", "fred"]);
    assert_eq!(parse("name[a,a, a]").unwrap().extras, vec!["a", "a", "a"]);
    assert_eq!(parse("name [ a.b , c-d ] ").unwrap().extras, vec!["a.b", "c-d"]);
    assert_eq!(parse("name[x]>=1").unwrap().extras, vec!["x"]);
    for bad in ["name[]", "name[ ]", "name[a,]", "name[,a]", "name[a,,b]", "name[a", "name[a b]", "name[a]]", "name[a][b]", "name[-a]"] {
        assert!(parse(bad).is_err(), "{}", bad);
    }
    // a list that does not hold is no list
    assert_eq!(parser("name[a,]"), Ok((named("name"), 4)));
}

#[test]
fn comparators() {
    let all = [
        ("<", Comparator::Lt),
        ("<=", Comparator::Le),
        ("!=", Comparator::Ne),
        ("==", Comparator::Eq),
        (">=", Comparator::Ge),
        (">", Comparator::Gt),
        ("~=", Comparator::Cp),
        ("===", Comparator::Ae),
    ];
    for (token, comparator) in all {
        assert_eq!(
            parse(&format!("name{}1", token)),
            Ok(versions("name", vec![clause(comparator, "1")])),
            "{}",
            token
        );
        assert_eq!(
            parse(&format!("name; extra {} 'x'", token)),
            Ok(when("name", test(Variable::Extra, comparator, "x"))),
            "{}",
            token
        );
    }
    for bad in ["name=1", "name~1", "name!1", "name=<1", "name=>1", "name====1", "name<>1", "name>", "name=="] {
        assert!(parse(bad).is_err(), "{}", bad);
    }
}

#[test]
fn version_tokens() {
    assert_eq!(
        parse("name==1.0a-B_c*+!9"),
        Ok(versions("name", vec![clause(Comparator::Eq, "1.0a-B_c*+!9")]))
    );
    assert_eq!(parse("name(>=1,<2)"), Ok(versions("name", vec![clause(Comparator::Ge, "1"), clause(Comparator::Lt, "2")])));
    assert_eq!(parse("name ( >= 1 , < 2 ) "), Ok(versions("name", vec![clause(Comparator::Ge, "1"), clause(Comparator::Lt, "2")])));
    assert_eq!(
        parse("name~=1.4.2,!=1.5.*,===x"),
        Ok(versions(
            "name",
            vec![clause(Comparator::Cp, "1.4.2"), clause(Comparator::Ne, "1.5.*"), clause(Comparator::Ae, "x")]
        ))
    );
    for bad in ["name>=", "name>=,", "name>=1,", "name>=1,,<2", "name,>=1", "name()", "name(>=1", "name>=1)", "name((>=1))", "name>=1 2", "name>=1/2", "name>=1 <2"] {
        assert!(parse(bad).is_err(), "{}", bad);
    }
}

#[test]
fn urls() {
    assert_eq!(
        parse("name@http://foo.com"),
        Ok(Dependency { spec: Some(Spec::Url("http://foo.com".to_string())), ..named("name") })
    );
    assert_eq!(parse("name@http://foo.com").unwrap().marker, None);
    assert_eq!(
        parse("pip @ https://github.com/pypa/pip/archive/1.3.1.zip#sha1=da9234e \t").unwrap().spec,
        Some(Spec::Url("https://github.com/pypa/pip/archive/1.3.1.zip#sha1=da9234e".to_string()))
    );
    assert_eq!(parse("name @ ../relative/path").unwrap().spec, Some(Spec::Url("../relative/path".to_string())));
    // a semicolon belongs to a URL: the marker needs a blank before it
    assert_eq!(
        parse("name@http://foo.com;extra=='x'"),
        Ok(Dependency { spec: Some(Spec::Url("http://foo.com;extra=='x'".to_string())), ..named("name") })
    );
    assert_eq!(
        parse("name@http://foo.com ;extra=='x'"),
        Ok(Dependency {
            spec: Some(Spec::Url("http://foo.com".to_string())),
            marker: Some(test(Variable::Extra, Comparator::Eq, "x")),
            ..named("name")
        })
    );
    assert_eq!(parse("name@@a").unwrap().spec, Some(Spec::Url("@a".to_string())));
    for bad in ["name@", "name @ ", "name@ http://[::1", "name@a b", "name@?q"] {
        assert!(parse(bad).is_err(), "{}", bad);
    }
}

#[test]
fn variables() {
    let all = [
        ("python_version", Variable::PythonVersion),
        ("python_full_version", Variable::PythonFullVersion),
        ("os_name", Variable::OsName),
        ("sys_platform", Variable::SysPlatform),
        ("platform_release", Variable::PlatformRelease),
        ("platform_system", Variable::PlatformSystem),
        ("platform_version", Variable::PlatformVersion),
        ("platform_machine", Variable::PlatformMachine),
        ("platform_python_implementation", Variable::PlatformPythonImplementation),
        ("implementation_name", Variable::ImplementationName),
        ("implementation_version", Variable::ImplementationVersion),
        ("extra", Variable::Extra),
    ];
    for (word, variable) in all {
        assert_eq!(
            parse(&format!("name; {} == 'x'", word)),
            Ok(when("name", test(variable.clone(), Comparator::Eq, "x"))),
            "{}",
            word
        );
        assert_eq!(
            parse(&format!("name; \"x\" in {}", word)),
            Ok(when("name", Marker::Operator(text("x"), Operator::In, variable))),
            "{}",
            word
        );
    }
    for bad in ["name; Extra=='x'", "name; python=='x'", "name; os.name=='x'", "name; extras=='x'", "name; x=='x'"] {
        assert!(parse(bad).is_err(), "{}", bad);
    }
}

#[test]
fn strings() {
    let interior = " \tAZaz09().{}-_*#:;,/?[]!~`@$%^&=+|<>";
    assert_eq!(
        parse(&format!("name; extra == '{}\"'", interior)),
        Ok(when("name", test(Variable::Extra, Comparator::Eq, &format!("{}\"", interior))))
    );
    assert_eq!(
        parse(&format!("name; extra == \"{}'\"", interior)),
        Ok(when("name", test(Variable::Extra, Comparator::Eq, &format!("{}'", interior))))
    );
    assert_eq!(parse("name; '' == \"\""), Ok(when("name", Marker::Operator(text(""), Operator::Comparator(Comparator::Eq), text("")))));
    for bad in ["name; extra == 'a'b'", "name; extra == 'a", "name; extra == \"a'", "name; extra == 'a\\'", "name; extra == 'a\u{e9}'", "name; extra == 'a\nb'", "name; extra == a"] {
        assert!(parse(bad).is_err(), "{}", bad);
    }
}

#[test]
fn operators() {
    assert_eq!(parse("name; 'a' in extra"), Ok(when("name", Marker::Operator(text("a"), Operator::In, Variable::Extra))));
    assert_eq!(parse("name; 'a'in'b'"), Ok(when("name", Marker::Operator(text("a"), Operator::In, text("b")))));
    assert_eq!(parse("name; 'a' not in extra"), Ok(when("name", Marker::Operator(text("a"), Operator::NotIn, Variable::Extra))));
    assert_eq!(parse("name; 'a' not \t in extra"), Ok(when("name", Marker::Operator(text("a"), Operator::NotIn, Variable::Extra))));
    for bad in ["name; 'a' notin extra", "name; 'a' not extra", "name; 'a' is extra", "name; 'a' extra", "name; 'a' IN extra", "name; 'a' in", "name; in 'a'"] {
        assert!(parse(bad).is_err(), "{}", bad);
    }
}

#[test]
fn connectives() {
    let a = || os_name("a");
    let b = || os_name("b");
    let c = || os_name("c");
    let d = || os_name("d");
    let go = |s: &str| parse(&format!("name; {}", s)).map(|d| d.marker.unwrap());
    let (sa, sb, sc, sd) = ("os_name=='a'", "os_name=='b'", "os_name=='c'", "os_name=='d'");

    assert_eq!(go(sa), Ok(a()));
    assert_eq!(go(&format!("({})", sa)), Ok(a()));
    assert_eq!(go(&format!("( ( {} ) )", sa)), Ok(a()));
    assert_eq!(go(&format!("{} and {}", sa, sb)), Ok(and(a(), b())));
    assert_eq!(go(&format!("{}and{}", sa, sb)), Ok(and(a(), b())));
    assert_eq!(go(&format!("{}or{}", sa, sb)), Ok(or(a(), b())));
    assert_eq!(
        go(&format!("{} and {} or {} and {}", sa, sb, sc, sd)),
        Ok(or(and(a(), b()), and(c(), d())))
    );
    assert_eq!(
        go(&format!("({} or {}) and ({} or {})", sa, sb, sc, sd)),
        Ok(and(or(a(), b()), or(c(), d())))
    );
    assert_eq!(
        go(&format!("{} and ({} and {})", sa, sb, sc)),
        Ok(and(a(), and(b(), c())))
    );
    assert_eq!(
        go(&format!("({} or {}) or {}", sa, sb, sc)),
        Ok(or(or(a(), b()), c()))
    );
    // a connective joins two operands: a third needs brackets
    assert!(go(&format!("{} and {} and {}", sa, sb, sc)).is_err());
    assert!(go(&format!("{} or {} or {}", sa, sb, sc)).is_err());
    for bad in ["", "()", "(", ")", "and", "os_name=='a' and", "os_name=='a' or", "or os_name=='a'", "(os_name=='a'", "os_name=='a')", "os_name=='a' AND os_name=='b'", "os_name=='a' os_name=='b'"] {
        assert!(go(bad).is_err(), "{}", bad);
    }
}

#[test]
fn nesting() {
    let nested = |n: usize| format!("name; {}extra=='x'{}", "(".repeat(n), ")".repeat(n));
    let x = when("name", test(Variable::Extra, Comparator::Eq, "x"));
    assert_eq!(parse(&nested(0)), Ok(x.clone()));
    assert_eq!(parse(&nested(1)), Ok(x.clone()));
    assert_eq!(parse(&nested(pep_508::MAX_NESTING)), Ok(x));
    assert!(parse(&nested(pep_508::MAX_NESTING + 1)).is_err());
    assert!(parse(&nested(100_000)).is_err());
    assert!(parse(&format!("name; {}", "(".repeat(100_000))).is_err());
}

#[test]
fn error_of_empty_input() {
    assert_eq!(error(""), SyntaxError { offset: 0, expected: vec![] });
    assert_eq!(error("# comment"), SyntaxError { offset: 0, expected: vec![] });
    assert_eq!(error("   "), SyntaxError { offset: 3, expected: vec![] });
}

#[test]
fn error_after_name() {
    let e = error("name$");
    assert_eq!(e.offset, 4);
    assert_eq!(
        e.expected,
        vec![
            Expected::Char('['),
            Expected::Char('@'),
            Expected::Char('('),
            Expected::Char('='),
            Expected::Char('<'),
            Expected::Char('!'),
            Expected::Char('>'),
            Expected::Char('~'),
            Expected::Char(';'),
            Expected::End,
        ]
    );
}

#[test]
fn error_is_the_furthest() {
    // the list of extras is given up, and still the error is inside it
    let e = error("name[a,,b]");
    assert_eq!(e.offset, 7);
    assert_eq!(e.expected, vec![]);
    let e = error("name[a");
    assert_eq!(e.offset, 6);
    assert_eq!(e.expected, vec![Expected::Char(','), Expected::Char(']')]);

    // the longest comparator that fits so far is the one expected
    let e = error("name =");
    assert_eq!(e.offset, 6);
    assert_eq!(e.expected, vec![Expected::Char('=')]);
    let e = error("name==");
    assert_eq!(e.offset, 6);
    assert_eq!(e.expected, vec![Expected::Char('=')]);

    let e = error("name; python_fool");
    assert_eq!(e.offset, 14);
    assert_eq!(e.expected, vec![Expected::Char('u')]);

    let e = error("name; extra == 'x' and");
    assert_eq!(e.offset, 22);
    assert!(e.expected.contains(&Expected::Char('(')));
    assert!(e.expected.contains(&Expected::Char('\'')));
    assert!(!e.expected.contains(&Expected::End));

    let e = error("name>=1 x");
    assert_eq!(e.offset, 8);
    assert_eq!(e.expected, vec![Expected::Char(','), Expected::Char(';'), Expected::End]);
}

#[test]
fn offsets_count_characters() {
    let e = error("n\u{e9}");
    assert_eq!(e.offset, 1);
    let e = error("name; extra == '\u{1f600}'");
    assert_eq!(e.offset, 16);
    assert_eq!(e.expected, vec![Expected::Char('\'')]);
}

#[test]
fn expectations_are_listed_once() {
    for s in ["name$", "name>=1 x", "name; extra", "name@http://[::", "name; (", "name [ a"] {
        let e = error(s);
        for (k, x) in e.expected.iter().enumerate() {
            assert!(!e.expected[..k].contains(x), "{} {:?}", s, x);
        }
        assert!(e.offset <= s.chars().count());
    }
}

#[test]
fn clones_are_equal() {
    let d = parse("name[a]>=1; extra=='x' and (os_name=='y' or 'z' in sys_platform)").unwrap();
    assert_eq!(d.clone(), d);
    let e = error("name$");
    assert_eq!(e.clone(), e);
}

fn is_name(s: &str) -> bool {
    let c: Vec<char> = s.chars().collect();
    let joiner = |c: char| matches!(c, '-' | '_' | '.');
    !c.is_empty()
        && c[0].is_ascii_alphanumeric()
        && c.iter().all(|&x| x.is_ascii_alphanumeric() || joiner(x))
        && (0..c.len()).all(|k| !joiner(c[k]) || (k + 1 < c.len() && c[k + 1].is_ascii_alphanumeric()))
}

#[test]
fn results_are_well_formed() {
    let inputs = [
        "a",
        "A.B-C_D [x.y, z-1] >= 1.0, != 2.* ; extra == 'a' and (os_name == \"b'\" or 'c' in extra)",
        "name@http://foo.com",
        "n_0(===a+b!c)",
    ];
    for s in inputs {
        let d = parse(s).expect(s);
        assert!(is_name(&d.name), "{}", s);
        assert!(d.extras.iter().all(|e| is_name(e)), "{}", s);
        match d.spec {
            Some(Spec::Url(u)) => assert!(!u.is_empty()),
            Some(Spec::Version(v)) => {
                assert!(!v.is_empty());
                for c in v {
                    assert!(!c.version.is_empty());
                    assert!(c
                        .version
                        .chars()
                        .all(|x| x.is_ascii_alphanumeric() || matches!(x, '-' | '_' | '.' | '*' | '+' | '!')));
                }
            },
            None => {},
        }
    }
    assert!(!is_name("a-"));
    assert!(!is_name("a--b"));
    assert!(!is_name(""));
}
