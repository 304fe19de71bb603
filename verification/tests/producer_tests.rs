use anno::document::TargetDocument;
use anno::errors::AnnoError;
use anno::invoke::Invocation;
use anno::producer::ProducerSpec;

fn env_value(inv: &Invocation, key: &str) -> String {
    for (k, v) in inv.env.iter() {
        if k.as_str() == key {
            return v.clone();
        }
    }
    panic!("missing environment variable");
}

#[test]
fn producer_only() {
    let spec = ProducerSpec::parse("computable-expressions:").unwrap();
    assert_eq!(spec.name(), "computable-expressions");
    assert_eq!(spec.source(), "");
    assert!(spec.params.is_empty());

    let doc = TargetDocument::new("example.c".to_string(), "int main() {\n}\n");
    let inv = Invocation::new(&doc, &spec);
    assert_eq!(inv.command, "anno-computable-expressions");
    assert_eq!(env_value(&inv, "ANNO_TARGET"), "example.c");
    assert_eq!(env_value(&inv, "ANNO_TARGET_LINES"), "2");
    assert_eq!(env_value(&inv, "ANNO_PRODUCER"), "computable-expressions");
    assert_eq!(env_value(&inv, "ANNO_SOURCE"), "");
}

#[test]
fn producer_with_source() {
    let spec = ProducerSpec::parse("dwarf-line-table:/example.dwarf").unwrap();
    assert_eq!(spec.name(), "dwarf-line-table");
    assert_eq!(spec.source(), "/example.dwarf");
    assert!(spec.params.is_empty());

    let doc = TargetDocument::new("example.c".to_string(), "int x;\n");
    let inv = Invocation::new(&doc, &spec);
    assert_eq!(inv.command, "anno-dwarf-line-table");
    assert_eq!(env_value(&inv, "ANNO_SOURCE"), "/example.dwarf");
}

#[test]
fn producer_with_source_and_params() {
    let spec = ProducerSpec::parse("dwarf-line-table:/example.dwarf?function=bob").unwrap();
    assert_eq!(spec.name(), "dwarf-line-table");
    assert_eq!(spec.source(), "/example.dwarf");
    assert_eq!(spec.params.len(), 1);
    assert_eq!(spec.params[0].0, "function");
    assert_eq!(spec.params[0].1, "bob");
}

#[test]
fn spec_without_scheme_delimiter_is_invalid() {
    let r = ProducerSpec::parse("foo");
    match r {
        Err(AnnoError::InvalidProducerSpec { input }) => assert_eq!(input, "foo"),
        _ => panic!("expected InvalidProducerSpec"),
    }
}

#[test]
fn empty_spec_is_invalid() {
    assert!(matches!(
        ProducerSpec::parse(""),
        Err(AnnoError::InvalidProducerSpec { .. })
    ));
}

#[test]
fn line_count_in_environment_is_decimal() {
    let mut text = String::new();
    for i in 0..120 {
        text.push_str("line ");
        text.push_str(&i.to_string());
        text.push('\n');
    }
    let doc = TargetDocument::new("many.c".to_string(), &text);
    assert_eq!(doc.line_count(), 120);
    let spec = ProducerSpec::parse("lines:").unwrap();
    let inv = Invocation::new(&doc, &spec);
    assert_eq!(env_value(&inv, "ANNO_TARGET_LINES"), "120");
}
