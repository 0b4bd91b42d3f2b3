//! The run's configuration, read from the command-line arguments (the
//! program's name left out) and from the input files they name.
use vstd::prelude::*;
use crate::text::{digits_value, is_unsigned_text, parse_u64, text_is, unsigned_digits};

verus! {

/// Per-request timeout, in seconds, when no flag sets one.
pub const DEFAULT_TIMEOUT_SECS: u64 = 5;

/// Why the run cannot start.
#[derive(Clone, Copy, Debug, PartialEq, Eq, Structural)]
pub enum ConfigError {
    /// The value after `--workers` is no whole number above zero.
    InvalidWorkers,
    /// The value after `--timeout` is no whole number above zero.
    InvalidTimeout,
    /// The value after `--retries` is no whole number of retries.
    InvalidRetries,
    /// An input file could not be read.
    UnreadableFile,
    /// Neither the arguments nor the input files give a URL.
    NoUrls,
}

impl ConfigError {
    /// The process exit code for this error: one for running without URLs,
    /// another for every other configuration error.
    pub fn exit_code(&self) -> (code: i32)
        ensures
            *self == ConfigError::NoUrls ==> code == 2,
            *self != ConfigError::NoUrls ==> code == 1,
    {
        match self {
            ConfigError::NoUrls => 2,
            _ => 1,
        }
    }
}

/// What the arguments say.
pub struct CliArgs {
    /// URLs given as arguments, in order; those after a `--file` are ignored.
    pub urls: Vec<String>,
    /// The input files named by `--file`, in order.
    pub files: Vec<String>,
    /// The worker count, if `--workers` gave one.
    pub workers: Option<usize>,
    pub timeout_secs: u64,
    pub retries: u32,
}

/// The arguments read so far.
pub struct CliState {
    pub urls: Seq<String>,
    pub files: Seq<String>,
    pub file_mode: bool,
    pub workers: Option<usize>,
    pub timeout_secs: u64,
    pub retries: u32,
}

pub open spec fn flag_file() -> Seq<char> {
    seq!['-', '-', 'f', 'i', 'l', 'e']
}

pub open spec fn flag_workers() -> Seq<char> {
    seq!['-', '-', 'w', 'o', 'r', 'k', 'e', 'r', 's']
}

pub open spec fn flag_timeout() -> Seq<char> {
    seq!['-', '-', 't', 'i', 'm', 'e', 'o', 'u', 't']
}

pub open spec fn flag_retries() -> Seq<char> {
    seq!['-', '-', 'r', 'e', 't', 'r', 'i', 'e', 's']
}

/// The whole number that `s` writes, if it writes one within `max`.
pub open spec fn number_within(s: Seq<char>, max: nat) -> Option<nat> {
    if is_unsigned_text(s) && digits_value(unsigned_digits(s)) <= max {
        Some(digits_value(unsigned_digits(s)))
    } else {
        None
    }
}

/// The state before any argument is read.
pub open spec fn initial_state() -> CliState {
    CliState {
        urls: Seq::empty(),
        files: Seq::empty(),
        file_mode: false,
        workers: None,
        timeout_secs: DEFAULT_TIMEOUT_SECS,
        retries: 0,
    }
}

/// Reads `args` from index `i` on, in state `st`. A flag takes the argument
/// after it as its value; a flag in last place has none and is ignored.
/// `--file` names an input file and from then on arguments that are no flag
/// are ignored; before it they are URLs.
pub open spec fn parse_from(args: Seq<String>, i: int, st: CliState) -> Result<CliState, ConfigError>
    decreases args.len() - i,
{
    if i < 0 || i >= args.len() {
        Ok(st)
    } else {
        let a = args[i]@;
        let has_value = i + 1 < args.len();
        if a == flag_file() {
            if has_value {
                parse_from(args, i + 2, CliState { file_mode: true, files: st.files.push(args[i + 1]), ..st })
            } else {
                parse_from(args, i + 1, CliState { file_mode: true, ..st })
            }
        } else if a == flag_workers() && has_value {
            let v = number_within(args[i + 1]@, usize::MAX as nat);
            if v is Some && v->0 > 0 {
                parse_from(args, i + 2, CliState { workers: Some(v->0 as usize), ..st })
            } else {
                Err(ConfigError::InvalidWorkers)
            }
        } else if a == flag_timeout() && has_value {
            let v = number_within(args[i + 1]@, u64::MAX as nat);
            if v is Some && v->0 > 0 {
                parse_from(args, i + 2, CliState { timeout_secs: v->0 as u64, ..st })
            } else {
                Err(ConfigError::InvalidTimeout)
            }
        } else if a == flag_retries() && has_value {
            match number_within(args[i + 1]@, u32::MAX as nat) {
                Some(r) => parse_from(args, i + 2, CliState { retries: r as u32, ..st }),
                _ => Err(ConfigError::InvalidRetries),
            }
        } else if a == flag_workers() || a == flag_timeout() || a == flag_retries() {
            parse_from(args, i + 1, st)
        } else if st.file_mode {
            parse_from(args, i + 1, st)
        } else {
            parse_from(args, i + 1, CliState { urls: st.urls.push(args[i]), ..st })
        }
    }
}

impl CliArgs {
    pub open spec fn matches(&self, st: CliState) -> bool {
        &&& self.urls@ == st.urls
        &&& self.files@ == st.files
        &&& self.workers == st.workers
        &&& self.timeout_secs == st.timeout_secs
        &&& self.retries == st.retries
    }
}

/// The whole number that `s` writes, if it writes one within `max`.
fn number_arg(s: &String, max: u64) -> (r: Option<u64>)
    ensures
        r is Some <==> number_within(s@, max as nat) is Some,
        r is Some ==> r->0 == number_within(s@, max as nat)->0,
{
    match parse_u64(s.as_str()) {
        Some(v) => if v <= max {
            Some(v)
        } else {
            None
        },
        None => None,
    }
}

/// Reads the command-line arguments (the program's name left out): the URLs
/// and input files they give and the flags' values, or the error of the
/// first flag whose value is malformed or out of range.
pub fn parse_args(args: &Vec<String>) -> (r: Result<CliArgs, ConfigError>)
    ensures
        match parse_from(args@, 0, initial_state()) {
            Ok(st) => r is Ok && r->Ok_0.matches(st),
            Err(e) => r == Err::<CliArgs, ConfigError>(e),
        },
        r is Ok ==> r->Ok_0.timeout_secs > 0,
        r is Ok && r->Ok_0.workers is Some ==> r->Ok_0.workers->0 > 0,
{
    proof {
        lemma_parsed_values_in_range(args@, 0, initial_state());
    }
    let mut urls: Vec<String> = Vec::new();
    let mut files: Vec<String> = Vec::new();
    let mut file_mode = false;
    let mut workers: Option<usize> = None;
    let mut timeout_secs: u64 = DEFAULT_TIMEOUT_SECS;
    let mut retries: u32 = 0;
    let n = args.len();
    let mut i: usize = 0;
    while i < n
        invariant
            n == args@.len(),
            i <= n + 1,
            parse_from(args@, i as int, CliState { urls: urls@, files: files@, file_mode, workers, timeout_secs, retries })
                == parse_from(args@, 0, initial_state()),
        decreases n + 1 - i,
    {
        let a = args[i].as_str();
        let has_value = i + 1 < n;
        proof {
            reveal_strlit("--file");
            reveal_strlit("--workers");
            reveal_strlit("--timeout");
            reveal_strlit("--retries");
            assert("--file"@ =~= flag_file());
            assert("--workers"@ =~= flag_workers());
            assert("--timeout"@ =~= flag_timeout());
            assert("--retries"@ =~= flag_retries());
        }
        let is_file = text_is(a, "--file");
        let is_workers = text_is(a, "--workers");
        let is_timeout = text_is(a, "--timeout");
        let is_retries = text_is(a, "--retries");
        if is_file {
            file_mode = true;
            if has_value {
                files.push(args[i + 1].clone());
                i = i + 2;
            } else {
                i = i + 1;
            }
        } else if is_workers && has_value {
            match number_arg(&args[i + 1], usize::MAX as u64) {
                Some(w) => {
                    if w == 0 {
                    return Err(ConfigError::InvalidWorkers);
                    }
                    workers = Some(w as usize);
                    i = i + 2;
                },
                None => {
                    return Err(ConfigError::InvalidWorkers);
                },
            }
        } else if is_timeout && has_value {
            match number_arg(&args[i + 1], u64::MAX) {
                Some(t) => {
                    if t == 0 {
                    return Err(ConfigError::InvalidTimeout);
                    }
                    timeout_secs = t;
                    i = i + 2;
                },
                None => {
                    return Err(ConfigError::InvalidTimeout);
                },
            }
        } else if is_retries && has_value {
            match number_arg(&args[i + 1], u32::MAX as u64) {
                Some(r) => {
                    retries = r as u32;
                    i = i + 2;
                },
                None => {
                    return Err(ConfigError::InvalidRetries);
                },
            }
        } else if is_workers || is_timeout || is_retries || file_mode {
            i = i + 1;
        } else {
            urls.push(args[i].clone());
            i = i + 1;
        }
    }
    Ok(CliArgs { urls, files, workers, timeout_secs, retries })
}

/// The configuration of a run.
pub struct Settings {
    /// The URLs to check, in the order given.
    pub urls: Vec<String>,
    pub workers: usize,
    pub timeout_secs: u64,
    pub retries: u32,
}

impl Settings {
    pub open spec fn wf(&self) -> bool {
        &&& self.urls@.len() > 0
        &&& self.workers > 0
        &&& self.timeout_secs > 0
    }

    /// The settings of a run from what the arguments say and the URLs read
    /// from their input files, with `default_workers` workers unless a flag
    /// gave a count; `NoUrls` where neither gives a URL.
    pub fn with_default_workers(cli: CliArgs, file_urls: Vec<String>, default_workers: usize) -> (r: Result<Settings, ConfigError>)
        requires
            default_workers > 0,
            cli.timeout_secs > 0,
            cli.workers is Some ==> cli.workers->0 > 0,
        ensures
            r is Err <==> cli.urls@.len() + file_urls@.len() == 0,
            r is Err ==> r->Err_0 == ConfigError::NoUrls,
            r is Ok ==> {
                let s = r->Ok_0;
                &&& s.wf()
                &&& s.urls@ == cli.urls@ + file_urls@
                &&& s.workers == match cli.workers {
                    Some(w) => w,
                    None => default_workers,
                }
                &&& s.timeout_secs == cli.timeout_secs
                &&& s.retries == cli.retries
            },
    {
        let mut urls = cli.urls;
        let ghost first = urls@;
        let mut i: usize = 0;
        while i < file_urls.len()
            invariant
                i <= file_urls@.len(),
                urls@ == first + file_urls@.take(i as int),
            decreases file_urls@.len() - i,
        {
            urls.push(file_urls[i].clone());
            i = i + 1;
            assert(urls@ =~= first + file_urls@.take(i as int));
        }
        assert(file_urls@.take(i as int) =~= file_urls@);
        if urls.len() == 0 {
            return Err(ConfigError::NoUrls);
        }
        let workers = match cli.workers {
            Some(w) => w,
            None => default_workers,
        };
        Ok(Settings { urls, workers, timeout_secs: cli.timeout_secs, retries: cli.retries })
    }

    /// As `with_default_workers`, with as many workers as the machine has
    /// CPUs available where no flag gave a count.
    pub fn new(cli: CliArgs, file_urls: Vec<String>) -> (r: Result<Settings, ConfigError>)
        requires
            cli.timeout_secs > 0,
            cli.workers is Some ==> cli.workers->0 > 0,
        ensures
            r is Err <==> cli.urls@.len() + file_urls@.len() == 0,
            r is Err ==> r->Err_0 == ConfigError::NoUrls,
            r is Ok ==> {
                let s = r->Ok_0;
                &&& s.wf()
                &&& s.urls@ == cli.urls@ + file_urls@
                &&& (cli.workers is Some ==> s.workers == cli.workers->0)
                &&& s.timeout_secs == cli.timeout_secs
                &&& s.retries == cli.retries
            },
    {
        let default_workers = available_parallelism();
        Settings::with_default_workers(cli, file_urls, default_workers)
    }
}

/// Relies on `num_cpus::get`: the number of CPUs this process may use,
/// documented to be at least one.
#[verifier::external_body]
fn available_parallelism() -> (n: usize)
    ensures
        n >= 1,
{
    num_cpus::get()
}

/// What the arguments say always has a timeout above zero and, where a
/// worker count is given, one above zero.
proof fn lemma_parsed_values_in_range(args: Seq<String>, i: int, st: CliState)
    requires
        st.timeout_secs > 0,
        st.workers is Some ==> st.workers->0 > 0,
    ensures
        parse_from(args, i, st) is Ok ==> {
            let r = parse_from(args, i, st)->Ok_0;
            &&& r.timeout_secs > 0
            &&& (r.workers is Some ==> r.workers->0 > 0)
        },
    decreases args.len() - i,
{
    if 0 <= i < args.len() {
        let a = args[i]@;
        let has_value = i + 1 < args.len();
        if a == flag_file() {
            if has_value {
                lemma_parsed_values_in_range(args, i + 2, CliState { file_mode: true, files: st.files.push(args[i + 1]), ..st });
            } else {
                lemma_parsed_values_in_range(args, i + 1, CliState { file_mode: true, ..st });
            }
        } else if a == flag_workers() && has_value {
            let v = number_within(args[i + 1]@, usize::MAX as nat);
            if v is Some && v->0 > 0 {
                lemma_parsed_values_in_range(args, i + 2, CliState { workers: Some(v->0 as usize), ..st });
            }
        } else if a == flag_timeout() && has_value {
            let v = number_within(args[i + 1]@, u64::MAX as nat);
            if v is Some && v->0 > 0 {
                lemma_parsed_values_in_range(args, i + 2, CliState { timeout_secs: v->0 as u64, ..st });
            }
        } else if a == flag_retries() && has_value {
            let v = number_within(args[i + 1]@, u32::MAX as nat);
            if v is Some {
                lemma_parsed_values_in_range(args, i + 2, CliState { retries: v->0 as u32, ..st });
            }
        } else if a == flag_workers() || a == flag_timeout() || a == flag_retries() || st.file_mode {
            lemma_parsed_values_in_range(args, i + 1, st);
        } else {
            lemma_parsed_values_in_range(args, i + 1, CliState { urls: st.urls.push(args[i]), ..st });
        }
    }
}

} // verus!
