use data_payload::{TransformResult, Variant, Variants};

fn variant(text: &str) -> Variant {
    Variant::from_text(text.to_string())
}

fn collect(variants: &Variants) -> Vec<String> {
    let mut seen = Vec::new();
    let result: Result<(), ()> = variants.for_each_subtag_str(&mut |s: &str| {
        seen.push(s.to_string());
        Ok(())
    });
    assert_eq!(result, Ok(()));
    seen
}

#[test]
fn new_is_default() {
    assert_eq!(Variants::new(), Variants::default());
    assert_eq!(Variants::new().iter().count(), 0);
    assert_eq!(Variants::new().to_string(), "");
}

#[test]
fn from_variant_holds_one() {
    let variants = Variants::from_variant(variant("posix"));
    assert_eq!(variants.iter().count(), 1);
    assert_eq!(variants.to_string(), "posix");
    assert_eq!(variants[0].as_str(), "posix");
}

#[test]
fn from_vec_unchecked_sorted() {
    let mut v = vec![variant("posix"), variant("macos")];
    v.sort();
    v.dedup();
    let variants: Variants = Variants::from_vec_unchecked(v);
    assert_eq!(variants.to_string(), "macos-posix");
}

#[test]
fn from_vec_unchecked_takes_the_vector_as_it_is() {
    let variants = Variants::from_vec_unchecked(vec![variant("posix"), variant("macos"), variant("posix")]);
    assert_eq!(variants.to_string(), "posix-macos-posix");
    assert_eq!(collect(&variants), vec!["posix", "macos", "posix"]);
}

#[test]
fn from_empty_vec() {
    let variants = Variants::from_vec_unchecked(Vec::new());
    assert_eq!(variants, Variants::new());
}

#[test]
fn clear_returns_the_old_list() {
    let mut v = vec![variant("posix"), variant("macos")];
    v.sort();
    v.dedup();
    let mut variants: Variants = Variants::from_vec_unchecked(v);
    assert_eq!(variants.to_string(), "macos-posix");
    let old = variants.clear();
    assert_eq!(variants.to_string(), "");
    assert_eq!(variants, Variants::new());
    assert_eq!(old.to_string(), "macos-posix");
}

#[test]
fn clear_of_empty_list() {
    let mut variants = Variants::new();
    let old = variants.clear();
    assert_eq!(old, Variants::new());
    assert_eq!(variants, Variants::new());
}

#[test]
fn for_each_subtag_str_visits_in_order() {
    let variants = Variants::from_vec_unchecked(vec![variant("macos"), variant("posix"), variant("valencia")]);
    assert_eq!(collect(&variants), vec!["macos", "posix", "valencia"]);
    assert_eq!(collect(&Variants::new()), Vec::<String>::new());
}

#[test]
fn for_each_subtag_str_stops_at_the_first_error() {
    let variants = Variants::from_vec_unchecked(vec![variant("macos"), variant("posix"), variant("valencia")]);
    let mut seen = Vec::new();
    let result = variants.for_each_subtag_str(&mut |s: &str| {
        if s == "posix" {
            return Err(format!("stopped at {}", s));
        }
        seen.push(s.to_string());
        Ok(())
    });
    assert_eq!(result, Err("stopped at posix".to_string()));
    assert_eq!(seen, vec!["macos"]);
}

#[test]
fn deref_gives_the_subtags() {
    let variants = Variants::from_vec_unchecked(vec![variant("macos"), variant("posix")]);
    let slice: &[Variant] = &variants;
    assert_eq!(slice.len(), 2);
    assert_eq!(slice[0], variant("macos"));
    assert_eq!(slice[1], variant("posix"));
    assert!(variants.iter().any(|v| v.as_str() == "posix"));
}

#[test]
fn variants_compare_by_content() {
    let a = Variants::from_vec_unchecked(vec![variant("macos"), variant("posix")]);
    let b = Variants::from_vec_unchecked(vec![variant("macos"), variant("posix")]);
    let shorter = Variants::from_variant(variant("macos"));
    let other = Variants::from_vec_unchecked(vec![variant("macos"), variant("posiy")]);
    assert_eq!(a, b);
    assert_eq!(a.clone(), a);
    assert_ne!(a, shorter);
    assert_ne!(a, other);
    assert!(shorter < a);
    assert!(a < other);
}

#[test]
fn variant_text_round_trips() {
    let v = variant("posix");
    assert_eq!(v.as_str(), "posix");
    assert_eq!(v.clone(), v);
    assert_ne!(v, variant("macos"));
    assert!(variant("macos") < variant("posix"));
    assert!(variant("mac") < variant("macos"));
}

#[test]
fn transform_results_differ() {
    assert_eq!(TransformResult::Modified, TransformResult::Modified);
    assert_ne!(TransformResult::Modified, TransformResult::Unmodified);
    assert_eq!(format!("{:?}", TransformResult::Unmodified), "Unmodified");
}
