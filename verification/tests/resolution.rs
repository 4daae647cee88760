//! Behavioural tests of the resolution machine and the argument validation.

use bundle_icon::errors::ResolveError;
use bundle_icon::invocation::parse_invocation;
use bundle_icon::resolve::{
    default_icon_path, resolve_start, source_kind_of, step_bundle_checked, step_candidate_checked,
    step_descriptor_read, Resolution, ResolveStep, SourceKind,
};

/// XML property-list bytes of a dictionary with the given string entries.
fn dict_bytes(entries: &[(&str, plist::Value)]) -> Vec<u8> {
    let mut d = plist::Dictionary::new();
    for (k, v) in entries {
        d.insert(k.to_string(), v.clone());
    }
    let mut buf = Vec::new();
    plist::Value::Dictionary(d).to_writer_xml(&mut buf).unwrap();
    buf
}

#[test]
fn start_asks_for_the_bundle() {
    match resolve_start("/Applications/Demo.app".to_string()) {
        ResolveStep::CheckBundle { bundle } => assert_eq!(bundle, "/Applications/Demo.app"),
        _ => panic!("expected a bundle existence question"),
    }
}

#[test]
fn missing_bundle_falls_back_to_default_icon() {
    match step_bundle_checked("/no/such/bundle".to_string(), false) {
        ResolveStep::Done { resolution: Resolution::Source { path, kind } } => {
            assert_eq!(path, default_icon_path());
            assert_eq!(kind, SourceKind::Icns);
        },
        _ => panic!("a missing bundle must resolve to the default icon"),
    }
}

#[test]
fn existing_bundle_reads_its_descriptor() {
    match step_bundle_checked("/Applications/Demo.app".to_string(), true) {
        ResolveStep::ReadDescriptor { bundle, descriptor } => {
            assert_eq!(bundle, "/Applications/Demo.app");
            assert_eq!(descriptor, "/Applications/Demo.app/Contents/Info.plist");
        },
        _ => panic!("an existing bundle must have its descriptor read"),
    }
}

#[test]
fn unreadable_descriptor_file_is_fatal() {
    match step_descriptor_read("/Applications/Demo.app", None) {
        ResolveStep::Done { resolution: Resolution::Failed(e) } => {
            assert_eq!(e, ResolveError::UnreadableDescriptor);
        },
        _ => panic!("an unreadable descriptor must be fatal"),
    }
}

#[test]
fn unparsable_descriptor_is_fatal() {
    let junk = b"certainly not a property list".to_vec();
    match step_descriptor_read("/Applications/Demo.app", Some(&junk)) {
        ResolveStep::Done { resolution: Resolution::Failed(e) } => {
            assert_eq!(e, ResolveError::UnreadableDescriptor);
        },
        _ => panic!("an unparsable descriptor must be fatal"),
    }
}

#[test]
fn non_dictionary_descriptor_fails_distinctly() {
    let mut buf = Vec::new();
    plist::Value::Array(vec![plist::Value::String("x".to_string())])
        .to_writer_xml(&mut buf)
        .unwrap();
    match step_descriptor_read("/Applications/Demo.app", Some(&buf)) {
        ResolveStep::Done { resolution: Resolution::Failed(e) } => {
            assert_eq!(e, ResolveError::MalformedDescriptor);
        },
        _ => panic!("a non-dictionary descriptor must fail"),
    }
}

#[test]
fn descriptor_without_icon_key_uses_default_icon() {
    let bytes = dict_bytes(&[("CFBundleName", plist::Value::String("Demo".to_string()))]);
    match step_descriptor_read("/Applications/Demo.app", Some(&bytes)) {
        ResolveStep::Done { resolution: Resolution::Source { path, kind } } => {
            assert_eq!(path, default_icon_path());
            assert_eq!(kind, SourceKind::Icns);
        },
        _ => panic!("an undeclared icon must resolve to the default icon"),
    }
}

#[test]
fn non_string_icon_value_uses_default_icon() {
    let bytes = dict_bytes(&[("CFBundleIconFile", plist::Value::Integer(plist::Integer::from(7u64)))]);
    match step_descriptor_read("/Applications/Demo.app", Some(&bytes)) {
        ResolveStep::Done { resolution: Resolution::Source { path, kind } } => {
            assert_eq!(path, default_icon_path());
            assert_eq!(kind, SourceKind::Icns);
        },
        _ => panic!("a non-string icon value must resolve to the default icon"),
    }
}

#[test]
fn declared_icon_probes_suffixes_in_order() {
    let bytes = dict_bytes(&[("CFBundleIconFile", plist::Value::String("Foo".to_string()))]);
    let step = step_descriptor_read("/Applications/Demo.app", Some(&bytes));
    let probe = match step {
        ResolveStep::CheckCandidate { probe } => probe,
        _ => panic!("a declared icon must start the candidate scan"),
    };
    assert_eq!(
        probe.pending().unwrap(),
        "/Applications/Demo.app/Contents/Resources/Foo"
    );
    // `Foo` itself is absent; the scan moves on to `Foo.icns`.
    let probe = match step_candidate_checked(probe, false) {
        ResolveStep::CheckCandidate { probe } => probe,
        _ => panic!("an absent candidate must advance the scan"),
    };
    assert_eq!(
        probe.pending().unwrap(),
        "/Applications/Demo.app/Contents/Resources/Foo.icns"
    );
    // `Foo.icns` exists: it is selected and routed to the ICNS decoder.
    match step_candidate_checked(probe, true) {
        ResolveStep::Done { resolution: Resolution::Source { path, kind } } => {
            assert_eq!(path, "/Applications/Demo.app/Contents/Resources/Foo.icns");
            assert_eq!(kind, SourceKind::Icns);
        },
        _ => panic!("an existing candidate must be selected"),
    }
}

#[test]
fn exhausted_scan_reports_no_icon_found() {
    let bytes = dict_bytes(&[("CFBundleIconFile", plist::Value::String("Foo".to_string()))]);
    let mut step = step_descriptor_read("/Applications/Demo.app", Some(&bytes));
    for _ in 0..3 {
        step = match step {
            ResolveStep::CheckCandidate { probe } => step_candidate_checked(probe, false),
            _ => panic!("the scan must ask about each of the three candidates"),
        };
    }
    match step {
        ResolveStep::Done { resolution: Resolution::Failed(e) } => {
            assert_eq!(e, ResolveError::NoIconFound);
        },
        _ => panic!("a scan out of candidates must fail"),
    }
}

#[test]
fn tiff_candidate_routes_to_the_tiff_converter() {
    let bytes = dict_bytes(&[("CFBundleIconFile", plist::Value::String("Pic".to_string()))]);
    let mut step = step_descriptor_read("/Applications/Demo.app", Some(&bytes));
    for _ in 0..2 {
        step = match step {
            ResolveStep::CheckCandidate { probe } => step_candidate_checked(probe, false),
            _ => panic!("the scan must reach the third candidate"),
        };
    }
    match step {
        ResolveStep::CheckCandidate { probe } => {
            match step_candidate_checked(probe, true) {
                ResolveStep::Done { resolution: Resolution::Source { path, kind } } => {
                    assert_eq!(path, "/Applications/Demo.app/Contents/Resources/Pic.tiff");
                    assert_eq!(kind, SourceKind::Tiff);
                },
                _ => panic!("an existing candidate must be selected"),
            }
        },
        _ => panic!("the scan must still be pending at the third candidate"),
    }
}

#[test]
fn source_kind_goes_by_the_path_suffix() {
    assert_eq!(source_kind_of("AppIcon.tiff"), SourceKind::Tiff);
    assert_eq!(source_kind_of("AppIcon.icns"), SourceKind::Icns);
    assert_eq!(source_kind_of("AppIcon"), SourceKind::Icns);
    assert_eq!(source_kind_of("tif"), SourceKind::Icns);
    assert_eq!(source_kind_of(".tiff"), SourceKind::Tiff);
    // Only the suffix routes: a `.tiff` in the middle does not.
    assert_eq!(source_kind_of("some.tiff.icns"), SourceKind::Icns);
}

#[test]
fn wrong_argument_count_yields_the_usage_message() {
    let usage = "This program expects two arguments.";
    assert_eq!(parse_invocation(&vec![]).err().unwrap(), usage);
    assert_eq!(parse_invocation(&vec!["in".to_string()]).err().unwrap(), usage);
    assert_eq!(
        parse_invocation(&vec!["a".to_string(), "b".to_string(), "c".to_string()])
            .err()
            .unwrap(),
        usage
    );
}

#[test]
fn two_arguments_are_accepted() {
    let inv = parse_invocation(&vec!["/Applications/Demo.app".to_string(), "out.png".to_string()])
        .unwrap();
    assert_eq!(inv.bundle_path, "/Applications/Demo.app");
    assert_eq!(inv.output_path, "out.png");
}
