//! Pure parts of the desktop harness: command-line language selection and
//! cutting a sample stream into fixed-size chunks.

use vstd::prelude::*;

use crate::pipeline::append_samples;
use crate::text::str_eq;

verus! {

/// Sample rate of the audio fed to a session, in Hz.
pub const SAMPLE_RATE: u32 = 16_000;

/// Duration of one chunk fed to a session, in milliseconds.
pub const CHUNK_MS: u32 = 100;

/// Samples in one chunk: `SAMPLE_RATE * CHUNK_MS / 1000`.
pub const CHUNK_SAMPLES: usize = 1600;

/// Milliseconds of silence fed after a recording ends, longer than the
/// default speech timeout, so that a still-open utterance closes.
pub const TRAILING_SILENCE_MS: u32 = 2000;

/// Silent chunks fed after a recording ends: enough whole chunks to cover
/// `TRAILING_SILENCE_MS`, plus one.
pub fn trailing_silence_chunks() -> (n: usize)
    ensures
        n == TRAILING_SILENCE_MS / CHUNK_MS + 1,
        n as int * CHUNK_MS as int > TRAILING_SILENCE_MS as int,
{
    (TRAILING_SILENCE_MS / CHUNK_MS + 1) as usize
}

/// The arguments as character sequences.
pub open spec fn args_view(args: Seq<String>) -> Seq<Seq<char>> {
    args.map_values(|a: String| a@)
}

/// Scans the arguments from position `i`: `--first X` and `--second X` set the
/// respective language (a later flag wins), anything else is skipped, and a
/// flag with no value after it is skipped too.
pub open spec fn scan_languages(args: Seq<Seq<char>>, i: int, first: Seq<char>, second: Seq<char>) -> (
    Seq<char>,
    Seq<char>,
)
    decreases args.len() - i,
{
    if i < 0 || i >= args.len() {
        (first, second)
    } else if args[i] == "--first"@ && i + 1 < args.len() {
        scan_languages(args, i + 2, args[i + 1], second)
    } else if args[i] == "--second"@ && i + 1 < args.len() {
        scan_languages(args, i + 2, first, args[i + 1])
    } else {
        scan_languages(args, i + 1, first, second)
    }
}

/// The languages the harness uses: English and Spanish unless the options
/// after the mode argument say otherwise.
pub open spec fn spec_parse_languages(args: Seq<Seq<char>>) -> (Seq<char>, Seq<char>) {
    scan_languages(args, 2, "en"@, "es"@)
}

/// Reads `--first` / `--second` from the arguments after the program name and
/// the mode (`args[0]`, `args[1]`).
pub fn parse_languages(args: &[String]) -> (languages: (String, String))
    ensures
        (languages.0@, languages.1@) == spec_parse_languages(args_view(args@)),
{
    let ghost view = args_view(args@);
    let mut first = String::from_str("en");
    let mut second = String::from_str("es");
    let mut i: usize = 2;
    while i < args.len()
        invariant
            view == args_view(args@),
            view.len() == args@.len(),
            i >= 2,
            scan_languages(view, i as int, first@, second@) == spec_parse_languages(view),
        decreases args@.len() - i,
    {
        let arg = args[i].as_str();
        if str_eq(arg, "--first") && i + 1 < args.len() {
            first = args[i + 1].clone();
            i = i + 2;
        } else if str_eq(arg, "--second") && i + 1 < args.len() {
            second = args[i + 1].clone();
            i = i + 2;
        } else {
            i = i + 1;
        }
    }
    (first, second)
}

/// Appends new samples to the pending ones and cuts off every full chunk of
/// `chunk_len` samples from the front, in order; what is left (fewer than
/// `chunk_len` samples) stays pending.
pub fn take_full_chunks<S: Copy>(pending: &mut Vec<S>, new_samples: &[S], chunk_len: usize) -> (chunks: Vec<
    Vec<S>,
>)
    requires
        chunk_len > 0,
    ensures
        ({
            let all = old(pending)@ + new_samples@;
            let taken = (chunks@.len() * chunk_len) as int;
            &&& taken <= all.len()
            &&& final(pending)@ == all.subrange(taken, all.len() as int)
            &&& final(pending)@.len() < chunk_len
            &&& forall|j: int|
                0 <= j < chunks@.len() ==> #[trigger] chunks@[j]@ == all.subrange(
                    j * chunk_len,
                    j * chunk_len + chunk_len,
                )
        }),
{
    let ghost all = old(pending)@ + new_samples@;
    append_samples(pending, new_samples);
    let mut chunks: Vec<Vec<S>> = Vec::new();
    let mut start: usize = 0;
    let n: usize = pending.len();
    assert(chunks@.len() * chunk_len == 0) by (nonlinear_arith)
        requires
            chunks@.len() == 0,
    ;
    while n - start >= chunk_len
        invariant
            pending@ == all,
            n == all.len(),
            start <= n,
            start == chunks@.len() * chunk_len,
            chunk_len > 0,
            forall|j: int|
                0 <= j < chunks@.len() ==> #[trigger] chunks@[j]@ == all.subrange(
                    j * chunk_len,
                    j * chunk_len + chunk_len,
                ),
        decreases n - start,
    {
        let mut chunk: Vec<S> = Vec::new();
        let mut k: usize = 0;
        while k < chunk_len
            invariant
                pending@ == all,
                n == all.len(),
                start + chunk_len <= n,
                k <= chunk_len,
                chunk@ == all.subrange(start as int, start + k),
            decreases chunk_len - k,
        {
            chunk.push(pending[start + k]);
            k = k + 1;
            assert(chunk@ =~= all.subrange(start as int, start + k));
        }
        let ghost count = chunks@.len();
        chunks.push(chunk);
        proof {
            assert(count * chunk_len + chunk_len == (count + 1) * chunk_len) by (nonlinear_arith);
        }
        start = start + chunk_len;
    }
    let mut rest: Vec<S> = Vec::new();
    let mut k: usize = start;
    while k < n
        invariant
            pending@ == all,
            n == all.len(),
            start <= k <= n,
            rest@ == all.subrange(start as int, k as int),
        decreases n - k,
    {
        rest.push(pending[k]);
        k = k + 1;
        assert(rest@ =~= all.subrange(start as int, k as int));
    }
    *pending = rest;
    chunks
}

} // verus!
