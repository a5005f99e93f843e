//! The command line `<input> <output> [--quality|-q N] [--overwrite] [-v...]`,
//! read from its arguments as bytes (the program name left out).

use vstd::prelude::*;

use crate::cli::{cli_quality, cli_quality_spec, CliError};

verus! {

/// A well-formed command line.
pub struct CliArgs {
    pub input: Vec<u8>,
    pub output: Vec<u8>,
    pub quality: u8,
    pub overwrite: bool,
    pub verbosity: u32,
}

/// What the arguments ask for, or why they cannot be read.
#[derive(Clone, Copy, Debug, PartialEq, Eq, Structural)]
pub enum ArgsError {
    /// An option that the program does not know.
    UnknownOption,
    /// `--quality` or `-q` stands last, with no value after it.
    MissingValue,
    /// Fewer or more than two paths.
    WrongPathCount,
    /// The quality value is not a whole number in `[1, 100]`.
    BadQuality,
}

impl ArgsError {
    pub open spec fn message_spec(&self) -> Seq<char> {
        match self {
            ArgsError::UnknownOption => "Unknown option."@,
            ArgsError::MissingValue => "--quality needs a value."@,
            ArgsError::WrongPathCount => "Expected an input path and an output path."@,
            ArgsError::BadQuality => "Quality must be a whole number from 1 to 100."@,
        }
    }

    /// A description of what is wrong with the command line.
    pub fn message(&self) -> (r: String)
        ensures
            r@ == self.message_spec(),
    {
        match self {
            ArgsError::UnknownOption => "Unknown option.".to_owned(),
            ArgsError::MissingValue => "--quality needs a value.".to_owned(),
            ArgsError::WrongPathCount => "Expected an input path and an output path.".to_owned(),
            ArgsError::BadQuality => "Quality must be a whole number from 1 to 100.".to_owned(),
        }
    }
}

pub open spec fn overwrite_flag() -> Seq<u8> {
    seq![45u8, 45, 111, 118, 101, 114, 119, 114, 105, 116, 101]
}

pub open spec fn quality_long() -> Seq<u8> {
    seq![45u8, 45, 113, 117, 97, 108, 105, 116, 121]
}

pub open spec fn quality_short() -> Seq<u8> {
    seq![45u8, 113]
}

/// `-v`, `-vv`, ...: a dash and one or more `v`.
pub open spec fn is_verbose_flag(a: Seq<u8>) -> bool {
    a.len() >= 2 && a[0] == 45 && forall|i: int| 1 <= i < a.len() ==> #[trigger] a[i] == 118
}

pub open spec fn is_option_like(a: Seq<u8>) -> bool {
    a.len() >= 2 && a[0] == 45
}

/// What has been read so far: the paths, the last quality value, the
/// overwrite flag and the verbosity.
pub struct ArgsSoFar {
    pub paths: Seq<Seq<u8>>,
    pub quality: Option<Seq<u8>>,
    pub overwrite: bool,
    pub verbosity: nat,
}

/// Reads `args` from index `i` on, given what was read before it.
pub open spec fn read_args(args: Seq<Seq<u8>>, i: int, st: ArgsSoFar) -> Result<ArgsSoFar, ArgsError>
    decreases args.len() - i,
{
    if i < 0 || i >= args.len() {
        Ok(st)
    } else {
        let a = args[i];
        if a == overwrite_flag() {
            read_args(args, i + 1, ArgsSoFar { overwrite: true, ..st })
        } else if a == quality_long() || a == quality_short() {
            if i + 1 >= args.len() {
                Err(ArgsError::MissingValue)
            } else {
                read_args(args, i + 2, ArgsSoFar { quality: Some(args[i + 1]), ..st })
            }
        } else if is_verbose_flag(a) {
            read_args(args, i + 1, ArgsSoFar { verbosity: st.verbosity + (a.len() - 1) as nat, ..st })
        } else if is_option_like(a) {
            Err(ArgsError::UnknownOption)
        } else {
            read_args(args, i + 1, ArgsSoFar { paths: st.paths.push(a), ..st })
        }
    }
}

pub open spec fn empty_args() -> ArgsSoFar {
    ArgsSoFar { paths: Seq::empty(), quality: None, overwrite: false, verbosity: 0 }
}

/// `r` is the command line that `args` spells.
pub open spec fn parses_to(args: Seq<Seq<u8>>, r: Result<CliArgs, ArgsError>) -> bool {
    match read_args(args, 0, empty_args()) {
        Err(e) => r == Err::<CliArgs, ArgsError>(e),
        Ok(st) => if st.paths.len() != 2 {
            r == Err::<CliArgs, ArgsError>(ArgsError::WrongPathCount)
        } else {
            match cli_quality_spec(st.quality) {
                Err(_) => r == Err::<CliArgs, ArgsError>(ArgsError::BadQuality),
                Ok(q) => r is Ok && r->Ok_0.input@ == st.paths[0] && r->Ok_0.output@ == st.paths[1]
                    && r->Ok_0.quality == q && r->Ok_0.overwrite == st.overwrite
                    && r->Ok_0.verbosity == if st.verbosity > u32::MAX { u32::MAX as nat } else {
                    st.verbosity
                },
            }
        },
    }
}

fn same_bytes(a: &[u8], lit: &[u8]) -> (r: bool)
    ensures
        r == (a@ == lit@),
{
    if a.len() != lit.len() {
        return false;
    }
    let mut i: usize = 0;
    while i < a.len()
        invariant
            a@.len() == lit@.len(),
            i <= a@.len(),
            forall|j: int| 0 <= j < i ==> a@[j] == lit@[j],
        decreases a.len() - i,
    {
        if a[i] != lit[i] {
            return false;
        }
        i = i + 1;
    }
    assert(a@ =~= lit@);
    true
}

fn verbose_count(a: &[u8]) -> (r: Option<usize>)
    ensures
        is_verbose_flag(a@) ==> r is Some && r->0 as int == a@.len() - 1,
        !is_verbose_flag(a@) ==> r is None,
{
    if a.len() < 2 || a[0] != 45 {
        return None;
    }
    let mut i: usize = 1;
    while i < a.len()
        invariant
            1 <= i <= a@.len(),
            a@.len() >= 2,
            forall|j: int| 1 <= j < i ==> a@[j] == 118,
        decreases a.len() - i,
    {
        if a[i] != 118 {
            return None;
        }
        i = i + 1;
    }
    Some(a.len() - 1)
}

fn copy_bytes(a: &[u8]) -> (r: Vec<u8>)
    ensures
        r@ == a@,
{
    let mut r: Vec<u8> = Vec::new();
    let mut i: usize = 0;
    while i < a.len()
        invariant
            i <= a@.len(),
            r@ == a@.subrange(0, i as int),
        decreases a.len() - i,
    {
        r.push(a[i]);
        i = i + 1;
        assert(r@ =~= a@.subrange(0, i as int));
    }
    assert(a@.subrange(0, a@.len() as int) =~= a@);
    r
}

/// Reads the command line.
pub fn parse_args(args: &Vec<Vec<u8>>) -> (r: Result<CliArgs, ArgsError>)
    ensures
        parses_to(args@.map_values(|a: Vec<u8>| a@), r),
{
    let ghost s = args@.map_values(|a: Vec<u8>| a@);
    let overwrite_lit: [u8; 11] = [45, 45, 111, 118, 101, 114, 119, 114, 105, 116, 101];
    let long_lit: [u8; 9] = [45, 45, 113, 117, 97, 108, 105, 116, 121];
    let short_lit: [u8; 2] = [45, 113];
    assert(overwrite_lit@ =~= overwrite_flag());
    assert(long_lit@ =~= quality_long());
    assert(short_lit@ =~= quality_short());
    let mut input: Option<Vec<u8>> = None;
    let mut output: Option<Vec<u8>> = None;
    let mut extra_paths: bool = false;
    let mut quality: Option<usize> = None;
    let mut overwrite: bool = false;
    let mut verbosity: u32 = 0;
    let ghost mut st = empty_args();
    let n = args.len();
    assert(s.len() == n);
    let mut i: usize = 0;
    while i < n
        invariant
            n == args@.len(),
            s == args@.map_values(|a: Vec<u8>| a@),
            s.len() == n,
            overwrite_lit@ == overwrite_flag(),
            long_lit@ == quality_long(),
            short_lit@ == quality_short(),
            i <= n,
            read_args(s, 0, empty_args()) == read_args(s, i as int, st),
            overwrite == st.overwrite,
            verbosity == if st.verbosity > u32::MAX { u32::MAX as nat } else { st.verbosity },
            quality is None <==> st.quality is None,
            quality is Some ==> quality->0 < n && st.quality == Some(s[quality->0 as int]),
            st.paths.len() == 0 ==> input is None && output is None && !extra_paths,
            st.paths.len() == 1 ==> input is Some && input->0@ == st.paths[0] && output is None
                && !extra_paths,
            st.paths.len() == 2 ==> input is Some && input->0@ == st.paths[0] && output is Some
                && output->0@ == st.paths[1] && !extra_paths,
            st.paths.len() > 2 <==> extra_paths,
        decreases n - i,
    {
        let a = args[i].as_slice();
        assert(a@ == s[i as int]);
        if same_bytes(a, vstd::array::array_as_slice(&overwrite_lit)) {
            overwrite = true;
            proof {
                let nst = ArgsSoFar { overwrite: true, ..st };
                assert(read_args(s, i as int, st) == read_args(s, i + 1, nst));
                st = nst;
            }
            i = i + 1;
        } else if same_bytes(a, vstd::array::array_as_slice(&long_lit)) || same_bytes(
            a,
            vstd::array::array_as_slice(&short_lit),
        ) {
            if i + 1 >= n {
                assert(read_args(s, i as int, st) == Err::<ArgsSoFar, ArgsError>(
                    ArgsError::MissingValue,
                ));
                return Err(ArgsError::MissingValue);
            }
            quality = Some(i + 1);
            proof {
                let nst = ArgsSoFar { quality: Some(s[i + 1]), ..st };
                assert(read_args(s, i as int, st) == read_args(s, i + 2, nst));
                st = nst;
            }
            i = i + 2;
        } else {
            match verbose_count(a) {
                Some(k) => {
                    verbosity = if k as u64 > (u32::MAX - verbosity) as u64 {
                        u32::MAX
                    } else {
                        verbosity + k as u32
                    };
                    proof {
                        let nst = ArgsSoFar { verbosity: st.verbosity + k as nat, ..st };
                        assert(read_args(s, i as int, st) == read_args(s, i + 1, nst));
                        st = nst;
                    }
                    i = i + 1;
                },
                None => {
                    if a.len() >= 2 && a[0] == 45 {
                        assert(is_option_like(s[i as int]));
                        assert(read_args(s, i as int, st) == Err::<ArgsSoFar, ArgsError>(
                            ArgsError::UnknownOption,
                        ));
                        return Err(ArgsError::UnknownOption);
                    }
                    if input.is_none() {
                        input = Some(copy_bytes(a));
                    } else if output.is_none() {
                        output = Some(copy_bytes(a));
                    } else {
                        extra_paths = true;
                    }
                    proof {
                        let nst = ArgsSoFar { paths: st.paths.push(a@), ..st };
                        assert(read_args(s, i as int, st) == read_args(s, i + 1, nst));
                        st = nst;
                    }
                    i = i + 1;
                },
            }
        }
    }
    if extra_paths {
        return Err(ArgsError::WrongPathCount);
    }
    match (input, output) {
        (Some(input), Some(output)) => {
            let q = match quality {
                Some(k) => cli_quality(Some(args[k].as_slice())),
                None => cli_quality(None),
            };
            match q {
                Ok(quality) => Ok(CliArgs { input, output, quality, overwrite, verbosity }),
                Err(_) => Err(ArgsError::BadQuality),
            }
        },
        _ => Err(ArgsError::WrongPathCount),
    }
}

} // verus!
