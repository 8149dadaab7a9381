//! Names of new containers and of the host.
use vstd::prelude::*;
use crate::command_ext::{lossy_text, utf8_lossy, CommandLine, CommandOutput};
use crate::commands::start::{StartError, StartFault};
use crate::consts::{APP_NAME, ENV_CONTAINER_SUFFIX};
use crate::host::{env_get, random_u64};
use crate::text::{copy_str, push_str, push_string, trim, trim_spec};
use crate::vars::getter_agrees;

verus! {

/// The adjectives that generated names are made of.
pub open spec fn adjective_list() -> Seq<Seq<char>> {
    seq![
        "agile"@, "bold"@, "brave"@, "bright"@, "calm"@, "clever"@, "cosmic"@, "crisp"@,
        "eager"@, "fancy"@, "fierce"@, "gentle"@, "happy"@, "jolly"@, "keen"@, "lively"@,
        "lucky"@, "mighty"@, "nimble"@, "proud"@, "quick"@, "quiet"@, "swift"@, "witty"@
    ]
}

/// Every adjective has at least one character.
pub proof fn lemma_adjectives_nonempty()
    ensures
        forall|k: int| 0 <= k < adjective_list().len() ==> (#[trigger] adjective_list()[k]).len() > 0,
{
    reveal_strlit("agile");
    reveal_strlit("bold");
    reveal_strlit("brave");
    reveal_strlit("bright");
    reveal_strlit("calm");
    reveal_strlit("clever");
    reveal_strlit("cosmic");
    reveal_strlit("crisp");
    reveal_strlit("eager");
    reveal_strlit("fancy");
    reveal_strlit("fierce");
    reveal_strlit("gentle");
    reveal_strlit("happy");
    reveal_strlit("jolly");
    reveal_strlit("keen");
    reveal_strlit("lively");
    reveal_strlit("lucky");
    reveal_strlit("mighty");
    reveal_strlit("nimble");
    reveal_strlit("proud");
    reveal_strlit("quick");
    reveal_strlit("quiet");
    reveal_strlit("swift");
    reveal_strlit("witty");
}

/// The adjectives that generated names are made of.
pub fn adjectives() -> (r: Vec<String>)
    ensures
        r.deep_view() == adjective_list(),
{
    let mut r: Vec<String> = Vec::new();
    push_string(&mut r, "agile");
    push_string(&mut r, "bold");
    push_string(&mut r, "brave");
    push_string(&mut r, "bright");
    push_string(&mut r, "calm");
    push_string(&mut r, "clever");
    push_string(&mut r, "cosmic");
    push_string(&mut r, "crisp");
    push_string(&mut r, "eager");
    push_string(&mut r, "fancy");
    push_string(&mut r, "fierce");
    push_string(&mut r, "gentle");
    push_string(&mut r, "happy");
    push_string(&mut r, "jolly");
    push_string(&mut r, "keen");
    push_string(&mut r, "lively");
    push_string(&mut r, "lucky");
    push_string(&mut r, "mighty");
    push_string(&mut r, "nimble");
    push_string(&mut r, "proud");
    push_string(&mut r, "quick");
    push_string(&mut r, "quiet");
    push_string(&mut r, "swift");
    push_string(&mut r, "witty");
    assert(r.deep_view() =~= adjective_list());
    r
}

/// A generated name: the adjective, then `-` and the suffix (the name of the
/// application when none is set); the adjective alone when the suffix is
/// empty.
pub open spec fn name_text(adjective: Seq<char>, suffix: Option<Seq<char>>) -> Seq<char> {
    let s = match suffix {
        Some(x) => x,
        None => APP_NAME@,
    };
    if s.len() == 0 {
        adjective
    } else {
        adjective + "-"@ + s
    }
}

/// The name made of `adjective` and `suffix` (see `name_text`).
pub fn name_from(adjective: &str, suffix: Option<&str>) -> (r: String)
    ensures
        r@ == name_text(adjective@, match suffix { Some(s) => Some(s@), None => None }),
{
    let s = match suffix {
        Some(x) => x,
        None => APP_NAME,
    };
    // an empty suffix removes it
    if s.is_empty() {
        copy_str(adjective)
    } else {
        let mut r = copy_str(adjective);
        push_str(&mut r, "-");
        push_str(&mut r, s);
        r
    }
}

/// Generates a random name: a random adjective with the suffix of the
/// variable of the application (see `name_text`).
pub fn generate_name<E: Fn(&str) -> Option<String>>(env: &E) -> (r: String)
    requires
        forall|x: &str| #[trigger] env.requires((x,)),
    ensures
        r@.len() > 0,
        forall|envs: spec_fn(Seq<char>) -> Option<Seq<char>>| getter_agrees(*env, envs) ==>
            exists|k: int| 0 <= k < adjective_list().len() && r@ == name_text(#[trigger] adjective_list()[k], envs(ENV_CONTAINER_SUFFIX@)),
{
    let list = adjectives();
    assert(list.deep_view().len() == 24);
    assert(list.len() == list.deep_view().len());
    let pick = (random_u64() % (list.len() as u64)) as usize;
    let suffix = env_get(env, ENV_CONTAINER_SUFFIX);
    let r = match &suffix {
        Some(s) => name_from(list[pick].as_str(), Some(s.as_str())),
        None => name_from(list[pick].as_str(), None),
    };
    assert(list.deep_view()[pick as int] == list@[pick as int]@);
    proof {
        lemma_adjectives_nonempty();
        assert(list@[pick as int]@.len() > 0);
    }
    r
}

/// The host name: `HOSTNAME` when it is set (`env_hostname`), else what the
/// `hostname` command printed (`output`, `None` when it could not run),
/// without surrounding white space; the command must succeed and print
/// something.
pub open spec fn hostname_result(env_hostname: Option<Seq<char>>, output: Option<CommandOutput>) -> Result<Seq<char>, StartFault> {
    match env_hostname {
        Some(h) => Ok(h),
        None => match output {
            None => Err(StartFault::HostnameCall),
            Some(o) => if o.status.code != Some(0i32) || utf8_lossy(o.stdout@).len() == 0 {
                Err(StartFault::NoHostname)
            } else {
                Ok(trim_spec(utf8_lossy(o.stdout@)))
            },
        },
    }
}

/// Gets the host name (see `hostname_result`).
pub fn get_hostname(env_hostname: Option<&str>, output: Option<&CommandOutput>) -> (r: Result<String, StartError>)
    ensures
        match hostname_result(match env_hostname { Some(h) => Some(h@), None => None }, match output { Some(o) => Some(*o), None => None }) {
            Ok(h) => r matches Ok(s) && s@ == h,
            Err(f) => r matches Err(e) && e@ == f,
        },
{
    // try to get hostname from env var
    if let Some(h) = env_hostname {
        return Ok(copy_str(h));
    }
    // then as a fallback use the hostname command
    let o = match output {
        Some(o) => o,
        None => return Err(StartError::HostnameCall),
    };
    let text = lossy_text(&o.stdout);
    if !o.status.success() || text.as_str().is_empty() {
        return Err(StartError::NoHostname);
    }
    Ok(trim(text.as_str()))
}

/// The command that asks the shell whether `cmd` is an executable in the path.
pub fn which_command(cmd: &str) -> (r: CommandLine)
    ensures
        r.program@ == "sh"@,
        r.args.deep_view() == seq!["-c"@, "which "@ + cmd@],
{
    let mut args: Vec<String> = Vec::new();
    push_string(&mut args, "-c");
    let mut w = copy_str("which ");
    push_str(&mut w, cmd);
    crate::text::push_owned(&mut args, w);
    assert(args.deep_view() =~= seq!["-c"@, "which "@ + cmd@]);
    CommandLine { program: copy_str("sh"), args }
}

} // verus!
