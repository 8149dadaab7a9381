//! The documentation of the options of a configuration.
use vstd::prelude::*;
use crate::config::ConfigV1;
use crate::text::{contains_str, contains_text, copy_str, join, join_strings, lowercase, push_str, push_string, replace_all, replace_spec, str_lower, trim, trim_spec};

verus! {

/// Documentation lines, each after `///` and on a line of its own.
pub open spec fn doc_lines(docs: Seq<Seq<char>>) -> Seq<char>
    decreases docs.len(),
{
    if docs.len() == 0 {
        Seq::empty()
    } else {
        doc_lines(docs.drop_last()) + "///"@ + docs.last() + "\n"@
    }
}

/// The variants of the source, each documented, by its name in lower case,
/// as a string.
pub open spec fn variant_section(vs: Seq<(Seq<char>, Seq<Seq<char>>)>) -> Seq<char>
    decreases vs.len(),
{
    if vs.len() == 0 {
        Seq::empty()
    } else {
        let (name, docs) = vs.last();
        variant_section(vs.drop_last()) + doc_lines(docs) + str_lower(name) + ": String\n\n"@
    }
}

/// The documentation of a field is marked to be left out.
pub open spec fn skipped(docs: Seq<Seq<char>>) -> bool {
    contains_text(join(docs, "\n"@), "@skip"@)
}

/// The fields, each documented, with its type (where `Vec` reads `Array`),
/// but those marked to be left out.
pub open spec fn field_section(fs: Seq<(Seq<char>, Seq<char>, Seq<Seq<char>>)>) -> Seq<char>
    decreases fs.len(),
{
    if fs.len() == 0 {
        Seq::empty()
    } else {
        let (name, ty, docs) = fs.last();
        field_section(fs.drop_last()) + if skipped(docs) {
            Seq::empty()
        } else {
            doc_lines(docs) + name + ": "@ + replace_spec(ty, "Vec<"@, "Array<"@) + "\n\n"@
        }
    }
}

/// The documentation of a configuration: its version, the sources, the
/// fields; without surrounding white space.
pub open spec fn docs_text(vs: Seq<(Seq<char>, Seq<Seq<char>>)>, fs: Seq<(Seq<char>, Seq<char>, Seq<Seq<char>>)>) -> Seq<char> {
    trim_spec("/// Config schema version (latest: \"1\")\nversion: String\n\n"@ + variant_section(vs) + field_section(fs))
}

/// The variants of the source with their documentation.
pub open spec fn source_docs() -> Seq<(Seq<char>, Seq<Seq<char>>)> {
    seq![
        ("Image"@, seq![" Use OCI image for the container source"@]),
        ("Nix"@, seq![" Nix file or flake directory with specifier"@])
    ]
}

/// The fields of a configuration with their types and documentation.
pub open spec fn field_docs() -> Seq<(Seq<char>, Seq<char>, Seq<Seq<char>>)> {
    seq![
        ("path"@, "Option<PathBuf>"@, seq![" Path to the config"@, " @skip"@]),
        ("name"@, "Option<String>"@, seq![" Name of the config"@, " @skip"@]),
        ("source"@, "SourceV1"@, seq![" Source for the container"@, " @skip"@]),
        ("skel"@, "Option<String>"@, seq![" Optional path to directory to use as /etc/skel (static dotfiles)"@, ""@, " Environ vars are expanded"@]),
        ("shell"@, "Option<String>"@, seq![" Default user shell"@]),
        ("gvisor"@, "bool"@, seq![" Use gvisor runtime for better sandboxing"@]),
        ("network"@, "bool"@, seq![" Set network access"@]),
        ("pipewire"@, "bool"@, seq![" Passthrough pipewire"@]),
        ("pulseaudio"@, "bool"@, seq![" Passthrough pulseaudio"@]),
        ("wayland"@, "bool"@, seq![" Passthrough wayland compositor socket, high security impact, allows clipboard access"@]),
        ("gpus"@, "Vec<u8>"@, seq![" Passthrough GPUs by their index, use 0 for all"@]),
        ("ssh_agent"@, "bool"@, seq![" Passthrough ssh-agent socket, security impact is unknown"@]),
        ("session_bus"@, "bool"@, seq![" Passthrough D-BUS session bus, maximum security impact allows arbitrary code execution"@]),
        ("persist"@, "Vec<(String, String)>"@, seq![" Path to mount as a volume, basically shorthand for `--volume=<name>:<path>`"@]),
        ("persist_user"@, "Vec<(String, String)>"@, seq![" Same as `persist` but the path is chowned as user on init"@]),
        ("on_init_pre"@, "Option<String>"@, seq![" Run command before all other scripts (ran using `/bin/sh`)"@]),
        ("on_init_post"@, "Option<String>"@, seq![" Run command after all other scripts (ran using `/bin/sh`)"@]),
        ("host_pre_init"@, "Option<String>"@, seq![" Runs following shell script and pass all arguments verbatim to it,"@, " script itself is responsible for running arcam start with all the arguments"@, ""@, " This allows you total control of the container startup which also"@, " makes it dangerous if you do not check the config file beforehand"@, ""@, " NOTE: the script is ran using \"/bin/sh\""@]),
        ("ports"@, "Vec<(u32, u32)>"@, seq![" Pass through container port to host (both TCP and UDP)"@, ""@, " Not all ports are allowed with rootless podman"@]),
        ("env"@, "Vec<(String, String)>"@, seq![" Environment variables to set (name, value)"@, ""@, " Environ vars are expanded"@]),
        ("capabilities"@, "Vec<String>"@, seq![" Add capabilities, or drop them with by prefixing `!cap`"@, ""@, " For more details about capabilities read `man 7 capabilities`"@]),
        ("engine_args"@, "Vec<String>"@, seq![" Args passed to the engine"@, ""@, " Environ vars are expanded"@])
    ]
}

/// The model of documented variants.
pub open spec fn variants_view(v: Seq<(String, Vec<String>)>) -> Seq<(Seq<char>, Seq<Seq<char>>)> {
    v.map_values(|e: (String, Vec<String>)| (e.0@, e.1.deep_view()))
}

/// The model of documented fields.
pub open spec fn fields_view(v: Seq<(String, String, Vec<String>)>) -> Seq<(Seq<char>, Seq<char>, Seq<Seq<char>>)> {
    v.map_values(|e: (String, String, Vec<String>)| (e.0@, e.1@, e.2.deep_view()))
}

fn strings_of(parts: &[&str]) -> (r: Vec<String>)
    ensures
        r.deep_view() == parts@.map_values(|s: &str| s@),
{
    let mut r: Vec<String> = Vec::new();
    let mut i: usize = 0;
    while i < parts.len()
        invariant
            i <= parts.len(),
            r.deep_view() == parts@.take(i as int).map_values(|s: &str| s@),
        decreases parts.len() - i,
    {
        push_string(&mut r, parts[i]);
        i = i + 1;
        assert(r.deep_view() =~= parts@.take(i as int).map_values(|s: &str| s@));
    }
    assert(parts@.take(parts@.len() as int) =~= parts@);
    r
}

fn push_variant(v: &mut Vec<(String, Vec<String>)>, name: &str, docs: &[&str])
    ensures
        variants_view(final(v)@) == variants_view(old(v)@).push((name@, docs@.map_values(|s: &str| s@))),
{
    let d = strings_of(docs);
    v.push((copy_str(name), d));
    assert(variants_view(v@) =~= variants_view(old(v)@).push((name@, docs@.map_values(|s: &str| s@))));
}

fn push_field(v: &mut Vec<(String, String, Vec<String>)>, name: &str, ty: &str, docs: &[&str])
    ensures
        fields_view(final(v)@) == fields_view(old(v)@).push((name@, ty@, docs@.map_values(|s: &str| s@))),
{
    let d = strings_of(docs);
    v.push((copy_str(name), copy_str(ty), d));
    assert(fields_view(v@) =~= fields_view(old(v)@).push((name@, ty@, docs@.map_values(|s: &str| s@))));
}

/// The variants of the source with their documentation.
pub fn source_docs_table() -> (r: Vec<(String, Vec<String>)>)
    ensures
        variants_view(r@) == source_docs(),
{
    let mut r: Vec<(String, Vec<String>)> = Vec::new();
    push_variant(&mut r, "Image", &[" Use OCI image for the container source"]);
    push_variant(&mut r, "Nix", &[" Nix file or flake directory with specifier"]);
    assert(variants_view(r@) =~~= source_docs());
    r
}

/// The fields of a configuration with their types and documentation.
pub fn field_docs_table() -> (r: Vec<(String, String, Vec<String>)>)
    ensures
        fields_view(r@) == field_docs(),
{
    let mut r: Vec<(String, String, Vec<String>)> = Vec::new();
    push_field(&mut r, "path", "Option<PathBuf>", &[" Path to the config", " @skip"]);
    push_field(&mut r, "name", "Option<String>", &[" Name of the config", " @skip"]);
    push_field(&mut r, "source", "SourceV1", &[" Source for the container", " @skip"]);
    push_field(&mut r, "skel", "Option<String>", &[" Optional path to directory to use as /etc/skel (static dotfiles)", "", " Environ vars are expanded"]);
    push_field(&mut r, "shell", "Option<String>", &[" Default user shell"]);
    push_field(&mut r, "gvisor", "bool", &[" Use gvisor runtime for better sandboxing"]);
    push_field(&mut r, "network", "bool", &[" Set network access"]);
    push_field(&mut r, "pipewire", "bool", &[" Passthrough pipewire"]);
    push_field(&mut r, "pulseaudio", "bool", &[" Passthrough pulseaudio"]);
    push_field(&mut r, "wayland", "bool", &[" Passthrough wayland compositor socket, high security impact, allows clipboard access"]);
    push_field(&mut r, "gpus", "Vec<u8>", &[" Passthrough GPUs by their index, use 0 for all"]);
    push_field(&mut r, "ssh_agent", "bool", &[" Passthrough ssh-agent socket, security impact is unknown"]);
    push_field(&mut r, "session_bus", "bool", &[" Passthrough D-BUS session bus, maximum security impact allows arbitrary code execution"]);
    push_field(&mut r, "persist", "Vec<(String, String)>", &[" Path to mount as a volume, basically shorthand for `--volume=<name>:<path>`"]);
    push_field(&mut r, "persist_user", "Vec<(String, String)>", &[" Same as `persist` but the path is chowned as user on init"]);
    push_field(&mut r, "on_init_pre", "Option<String>", &[" Run command before all other scripts (ran using `/bin/sh`)"]);
    push_field(&mut r, "on_init_post", "Option<String>", &[" Run command after all other scripts (ran using `/bin/sh`)"]);
    push_field(&mut r, "host_pre_init", "Option<String>", &[" Runs following shell script and pass all arguments verbatim to it,", " script itself is responsible for running arcam start with all the arguments", "", " This allows you total control of the container startup which also", " makes it dangerous if you do not check the config file beforehand", "", " NOTE: the script is ran using \"/bin/sh\""]);
    push_field(&mut r, "ports", "Vec<(u32, u32)>", &[" Pass through container port to host (both TCP and UDP)", "", " Not all ports are allowed with rootless podman"]);
    push_field(&mut r, "env", "Vec<(String, String)>", &[" Environment variables to set (name, value)", "", " Environ vars are expanded"]);
    push_field(&mut r, "capabilities", "Vec<String>", &[" Add capabilities, or drop them with by prefixing `!cap`", "", " For more details about capabilities read `man 7 capabilities`"]);
    push_field(&mut r, "engine_args", "Vec<String>", &[" Args passed to the engine", "", " Environ vars are expanded"]);
    assert(fields_view(r@) =~~= field_docs());
    r
}

/// Writes documentation lines, each after `///`.
fn write_doc_lines(out: &mut String, docs: &Vec<String>)
    ensures
        final(out)@ == old(out)@ + doc_lines(docs.deep_view()),
{
    let ghost dv = docs.deep_view();
    let ghost start = out@;
    let mut i: usize = 0;
    assert(dv.take(0) =~= Seq::<Seq<char>>::empty());
    while i < docs.len()
        invariant
            i <= docs.len(),
            dv == docs.deep_view(),
            out@ == start + doc_lines(dv.take(i as int)),
        decreases docs.len() - i,
    {
        let ghost before = out@;
        push_str(out, "///");
        push_str(out, docs[i].as_str());
        push_str(out, "\n");
        assert(dv.take(i + 1).drop_last() =~= dv.take(i as int));
        i = i + 1;
        assert(out@ =~= start + doc_lines(dv.take(i as int)));
    }
    assert(dv.take(dv.len() as int) =~= dv);
}

/// The documentation of a configuration (see `docs_text`) for these
/// documented variants and fields.
pub fn docs_from(variants: &Vec<(String, Vec<String>)>, fields: &Vec<(String, String, Vec<String>)>) -> (r: String)
    ensures
        r@ == docs_text(variants_view(variants@), fields_view(fields@)),
{
    let mut out = copy_str("/// Config schema version (latest: \"1\")\nversion: String\n\n");
    let ghost head = out@;
    let ghost vv = variants_view(variants@);
    let mut i: usize = 0;
    assert(vv.take(0) =~= Seq::<(Seq<char>, Seq<Seq<char>>)>::empty());
    while i < variants.len()
        invariant
            i <= variants.len(),
            vv == variants_view(variants@),
            out@ == head + variant_section(vv.take(i as int)),
        decreases variants.len() - i,
    {
        write_doc_lines(&mut out, &variants[i].1);
        let lower = lowercase(variants[i].0.as_str());
        push_str(&mut out, lower.as_str());
        push_str(&mut out, ": String\n\n");
        assert(vv.take(i + 1).drop_last() =~= vv.take(i as int));
        i = i + 1;
        assert(out@ =~= head + variant_section(vv.take(i as int)));
    }
    assert(vv.take(vv.len() as int) =~= vv);
    let ghost mid = out@;
    let ghost fv = fields_view(fields@);
    let mut j: usize = 0;
    assert(fv.take(0) =~= Seq::<(Seq<char>, Seq<char>, Seq<Seq<char>>)>::empty());
    while j < fields.len()
        invariant
            j <= fields.len(),
            fv == fields_view(fields@),
            out@ == mid + field_section(fv.take(j as int)),
        decreases fields.len() - j,
    {
        let joined = join_strings(&fields[j].2, "\n");
        assert(fv.take(j + 1).drop_last() =~= fv.take(j as int));
        // leave out the fields marked to be skipped
        if !contains_str(joined.as_str(), "@skip") {
            write_doc_lines(&mut out, &fields[j].2);
            push_str(&mut out, fields[j].0.as_str());
            push_str(&mut out, ": ");
            let ty = replace_all(fields[j].1.as_str(), "Vec<", "Array<");
            push_str(&mut out, ty.as_str());
            push_str(&mut out, "\n\n");
        }
        j = j + 1;
        assert(out@ =~= mid + field_section(fv.take(j as int)));
    }
    assert(fv.take(fv.len() as int) =~= fv);
    trim(out.as_str())
}

impl ConfigV1 {
    /// Returns docs for the version of config
    pub fn docs() -> (r: String)
        ensures
            r@ == docs_text(source_docs(), field_docs()),
    {
        let variants = source_docs_table();
        let fields = field_docs_table();
        docs_from(&variants, &fields)
    }
}

} // verus!
