use arcam::graph::{tsort, Sortable};

#[test]
fn tsort_basic() {
    let syn = Sortable("syn", vec![]);
    let quote = Sortable("quote", vec![]);
    let proc_macro2 = Sortable("proc_macro2", vec![]);
    let serde_derive = Sortable("serde_derive", vec![&proc_macro2, &quote, &syn]);
    let serde = Sortable("serde", vec![&serde_derive]);

    let ryu = Sortable("ryu", vec![]);
    let memchr = Sortable("memchr", vec![]);
    let itoa = Sortable("itoa", vec![]);
    let serde_json = Sortable("serde_json", vec![&itoa, &memchr, &ryu, &serde]);

    let serde_spanned = Sortable("serde_spanned", vec![&serde]);
    let winnow = Sortable("winnow", vec![]);
    let hashbrown = Sortable("hashbrown", vec![]);
    let equivalent = Sortable("equivalent", vec![]);
    let indexmap = Sortable("indexmap", vec![&equivalent, &hashbrown]);
    let toml_datetime = Sortable("toml_datetime", vec![&serde]);
    let toml_edit = Sortable("toml_edit", vec![&indexmap, &serde, &serde_spanned, &toml_datetime, &winnow]);
    let toml = Sortable("toml", vec![&serde, &serde_spanned, &toml_datetime, &toml_edit]);

    let sorted: Vec<&Sortable> = tsort(vec![&serde, &serde_json, &toml]);

    assert_eq!(
        sorted,
        vec![&syn, &quote, &proc_macro2, &serde_derive, &serde, &hashbrown, &equivalent, &winnow, &toml_datetime, &serde_spanned, &indexmap, &toml_edit, &ryu, &memchr, &itoa, &toml, &serde_json,]
    );

    // basic example
    let d = Sortable("D", vec![]);
    let c = Sortable("C", vec![&d]);
    let a = Sortable("A", vec![&c, &d]);
    let e = Sortable("E", vec![&c, &a]);
    let b = Sortable("B", vec![&e, &d]);

    let sorted: Vec<&Sortable> = tsort(vec![&d, &c, &a, &e, &b]);

    assert_eq!(sorted, vec![&d, &c, &a, &e, &b],);
}

#[test]
fn tsort_dependencies_come_first_without_duplicates() {
    let x = Sortable("x", vec![]);
    let y = Sortable("y", vec![&x]);
    let z = Sortable("z", vec![&y, &x]);
    let sorted = tsort(vec![&z, &y]);
    assert_eq!(sorted, vec![&x, &y, &z]);
}

#[test]
fn tsort_of_nothing_is_empty() {
    let sorted: Vec<&Sortable> = tsort(vec![]);
    assert!(sorted.is_empty());
}
