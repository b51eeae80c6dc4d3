//! Validation of what the player is asked to play or fetch.
use vstd::prelude::*;
use crate::firecore::error::Error;
use crate::text::{
    chars_of, find_from, first_match, has_char, has_dotdot, has_dotdot_component, has_prefix,
    lemma_match_from_bounds, lemma_trim_idempotent, lower_ascii, starts_with, str_eq, string_from, to_ascii_lower, trim,
    trim_bounds, trim_string, views,
};

verus! {

/// The scheme of a URL as the player reads it: the trimmed text before the first
/// `://` (all of it when there is none), in ASCII lowercase.
pub open spec fn url_scheme(url: Seq<char>) -> Seq<char> {
    let t = trim(url);
    let i = first_match(t, "://"@);
    let head = if i < 0 {
        t
    } else {
        t.take(i)
    };
    lower_ascii(head)
}

/// The URL's scheme is one the player accepts.
pub open spec fn scheme_allowed(url: Seq<char>) -> bool {
    url_scheme(url) == "http"@ || url_scheme(url) == "https"@
}

/// The error is `InvalidInput` with exactly this message.
pub open spec fn is_invalid_input(e: Error, msg: Seq<char>) -> bool {
    e matches Error::InvalidInput(m) && m@ == msg
}

/// The result is an `InvalidInput` error with exactly this message.
pub open spec fn fails_with<T>(r: Result<T, Error>, msg: Seq<char>) -> bool {
    r matches Err(e) && is_invalid_input(e, msg)
}

/// Checks that `url` is a non-empty http or https URL.
pub fn validate_url(url: &str) -> (res: Result<(), Error>)
    ensures
        trim(url@).len() == 0 ==> fails_with(res, "empty URL"@),
        trim(url@).len() > 0 && scheme_allowed(url@) ==> res is Ok,
        trim(url@).len() > 0 && !scheme_allowed(url@) ==> fails_with(
            res,
            "unsupported URL scheme (only http/https allowed): "@ + url@,
        ),
{
    let v = chars_of(url);
    let (lo, hi) = trim_bounds(&v);
    if lo == hi {
        return Err(Error::InvalidInput(String::from_str("empty URL")));
    }
    let t = string_from(&v, lo, hi);
    let tv = chars_of(t.as_str());
    let sep = chars_of("://");
    let head = match find_from(&tv, &sep, 0) {
        Some(i) => {
            proof {
                lemma_match_from_bounds(tv@, sep@, 0);
            }
            string_from(&tv, 0, i)
        },
        None => string_from(&tv, 0, tv.len()),
    };
    assert(tv@.subrange(0, tv@.len() as int) =~= tv@);
    assert(tv@.subrange(0, first_match(tv@, sep@)) =~= tv@.take(first_match(tv@, sep@)));
    let scheme = to_ascii_lower(head.as_str());
    if str_eq(scheme.as_str(), "http") || str_eq(scheme.as_str(), "https") {
        Ok(())
    } else {
        let mut m = String::from_str("unsupported URL scheme (only http/https allowed): ");
        m.append(url);
        Err(Error::InvalidInput(m))
    }
}

/// What a playback input names, before anything on disk is looked at.
#[derive(Debug)]
pub enum InputKind {
    /// A web stream, given by its trimmed URL.
    Url(String),
    /// A local file, given by its trimmed path.
    Local(String),
}

/// How the player reads a playback input without looking at the disk: trimmed, it must
/// be non-empty and free of NUL; an `http://` or `https://` input is a URL; any other
/// is a local path, which must have no `..` component.
pub open spec fn classify_input(input: Seq<char>) -> Result<(bool, Seq<char>), Seq<char>> {
    let t = trim(input);
    if t.len() == 0 {
        Err("empty playback input"@)
    } else if t.contains('\0') {
        Err("invalid playback input"@)
    } else if has_prefix(t, "http://"@) || has_prefix(t, "https://"@) {
        Ok((true, t))
    } else if has_dotdot_component(t) {
        Err("local paths must not contain '..' components: "@ + input)
    } else {
        Ok((false, t))
    }
}

/// The library's reading of an input agrees with `classify_input`.
pub open spec fn kind_matches(k: InputKind, c: (bool, Seq<char>)) -> bool {
    match k {
        InputKind::Url(u) => c.0 && u@ == c.1,
        InputKind::Local(p) => !c.0 && p@ == c.1,
    }
}

/// Reads a playback input as a URL or a local path, or rejects it.
pub fn classify_playback_input(input: &str) -> (res: Result<InputKind, Error>)
    ensures
        match classify_input(input@) {
            Ok(c) => res matches Ok(k) && kind_matches(k, c),
            Err(m) => fails_with(res, m),
        },
{
    let t = trim_string(input);
    if t.as_str().unicode_len() == 0 {
        return Err(Error::InvalidInput(String::from_str("empty playback input")));
    }
    if has_char(t.as_str(), '\0') {
        return Err(Error::InvalidInput(String::from_str("invalid playback input")));
    }
    if starts_with(t.as_str(), "http://") || starts_with(t.as_str(), "https://") {
        // an http(s) prefix always passes `validate_url`
        return Ok(InputKind::Url(t));
    }
    if has_dotdot(t.as_str()) {
        let mut m = String::from_str("local paths must not contain '..' components: ");
        m.append(input);
        return Err(Error::InvalidInput(m));
    }
    Ok(InputKind::Local(t))
}

/// `Path::exists`: whether something is at this path now.
#[verifier::external_body]
pub(crate) fn path_exists(path: &str) -> (b: bool) {
    std::path::Path::new(path).exists()
}

/// `Path::is_file`: whether a regular file is at this path now.
#[verifier::external_body]
pub(crate) fn path_is_file(path: &str) -> (b: bool) {
    std::path::Path::new(path).is_file()
}

/// `Path::is_dir`: whether a directory is at this path now.
#[verifier::external_body]
pub(crate) fn path_is_dir(path: &str) -> (b: bool) {
    std::path::Path::new(path).is_dir()
}

/// `Path::canonicalize`: the absolute path with all links resolved, as text, or the
/// text of the I/O error. An absolute path is never empty; nothing more of its text
/// is stated, as it is the disk's.
#[verifier::external_body]
pub(crate) fn canonicalize(path: &str) -> (r: Result<String, String>)
    ensures
        r matches Ok(c) ==> c@.len() > 0,
{
    match std::path::Path::new(path).canonicalize() {
        Ok(p) => Ok(p.to_string_lossy().into_owned()),
        Err(e) => Err(e.to_string()),
    }
}

/// What the disk showed of a local path, looked at in turn: whether anything is there,
/// then its canonical form, then whether that is of the kind wanted.
#[derive(Debug)]
pub enum DiskFinding {
    /// Nothing is at the path.
    Missing,
    /// Something is there, but finding its canonical form failed with this I/O error.
    Unresolved(String),
    /// The canonical form of the path, and whether it is of the kind wanted (a regular
    /// file, or a folder).
    Resolved(String, bool),
}

/// A finding the disk can give: a canonical form, being absolute, is never empty.
pub open spec fn finding_ok(f: DiskFinding) -> bool {
    f matches DiskFinding::Resolved(c, _) ==> c@.len() > 0
}

/// Looks at a local path on disk: whether it exists, its canonical form, and whether
/// that is a folder (`want_dir`) or a regular file. The answers are the disk's.
pub fn look_at(path: &str, want_dir: bool) -> (f: DiskFinding)
    ensures
        finding_ok(f),
{
    if !path_exists(path) {
        return DiskFinding::Missing;
    }
    match canonicalize(path) {
        Err(e) => DiskFinding::Unresolved(e),
        Ok(c) => {
            let kind = if want_dir {
                path_is_dir(c.as_str())
            } else {
                path_is_file(c.as_str())
            };
            DiskFinding::Resolved(c, kind)
        },
    }
}

/// What validation makes of a local playback input given what the disk showed of it:
/// missing is refused with the input; an I/O error is passed on; a canonical path that
/// is a regular file is the result; one that is not is refused with that path.
pub open spec fn local_verdict(input: Seq<char>, f: DiskFinding, res: Result<String, Error>) -> bool {
    match f {
        DiskFinding::Missing => fails_with(res, "local file does not exist: "@ + input),
        DiskFinding::Unresolved(e) => res matches Err(Error::Io(m)) && m@ == e@,
        DiskFinding::Resolved(c, is_file) => if is_file {
            res matches Ok(s) && s@ == c@
        } else {
            fails_with(res, "local playback input is not a file: "@ + c@)
        },
    }
}

/// Decides a local playback input from what the disk showed of it.
pub fn local_input_verdict(input: &str, f: DiskFinding) -> (res: Result<String, Error>)
    ensures
        local_verdict(input@, f, res),
{
    match f {
        DiskFinding::Missing => {
            let mut m = String::from_str("local file does not exist: ");
            m.append(input);
            Err(Error::InvalidInput(m))
        },
        DiskFinding::Unresolved(e) => Err(Error::Io(e)),
        DiskFinding::Resolved(c, is_file) => {
            if is_file {
                Ok(c)
            } else {
                let mut m = String::from_str("local playback input is not a file: ");
                m.append(c.as_str());
                Err(Error::InvalidInput(m))
            }
        },
    }
}

/// Reading the text that an accepted input was read as gives the same reading again:
/// a URL that validation accepted validates to itself, and the trimmed path of an
/// accepted local input is accepted as the same local path.
pub proof fn lemma_accepted_reads_the_same(input: Seq<char>)
    requires
        classify_input(input) is Ok,
    ensures
        classify_input(classify_input(input)->Ok_0.1) == classify_input(input),
{
    lemma_trim_idempotent(input);
}

/// What validating one playback input gives when the disk shows `f` of it: the error
/// that `classify_input` names; a URL, trimmed, the disk not being asked; or, for a
/// local path, the verdict on that finding.
pub open spec fn single_with(input: Seq<char>, f: DiskFinding, res: Result<String, Error>) -> bool {
    match classify_input(input) {
        Err(m) => fails_with(res, m),
        Ok((true, t)) => res matches Ok(s) && s@ == t,
        Ok((false, _)) => finding_ok(f) && local_verdict(input, f, res),
    }
}

/// What validating one playback input may give, whatever the disk shows.
pub open spec fn single_outcome(input: Seq<char>, res: Result<String, Error>) -> bool {
    exists|f: DiskFinding| single_with(input, f, res)
}

/// Validating `input`, the disk showing `f`, succeeds.
pub open spec fn passes_with(input: Seq<char>, f: DiskFinding) -> bool {
    exists|s: String| single_with(input, f, Ok(s))
}

/// What validating the list `inputs` gives when the disk shows `fs[i]` of input `i`:
/// an error for an empty list; else every output, in order, when every input passes;
/// else the error of the first input that fails, all before it passing.
pub open spec fn list_with(inputs: Seq<Seq<char>>, fs: Seq<DiskFinding>, res: Result<Vec<String>, Error>) -> bool {
    if inputs.len() == 0 {
        fails_with(res, "at least one playback input is required"@)
    } else {
        match res {
            Ok(v) => v@.len() == inputs.len() && forall|i: int|
                0 <= i < inputs.len() ==> single_with(inputs[i], fs[i], Ok(#[trigger] v@[i])),
            Err(e) => exists|i: int| 0 <= i < inputs.len()
                && single_with(#[trigger] inputs[i], fs[i], Err(e))
                && forall|j: int| 0 <= j < i ==> passes_with(#[trigger] inputs[j], fs[j]),
        }
    }
}

/// Validates one playback input: a URL is kept trimmed; a local path must name an
/// existing file and is replaced by its canonical form.
pub fn validate_playback_input(input: &str) -> (res: Result<String, Error>)
    ensures
        single_outcome(input@, res),
{
    match classify_playback_input(input) {
        Err(e) => {
            let r = Err(e);
            assert(single_with(input@, DiskFinding::Missing, r));
            r
        },
        Ok(InputKind::Url(u)) => {
            let r = Ok(u);
            assert(single_with(input@, DiskFinding::Missing, r));
            r
        },
        Ok(InputKind::Local(p)) => {
            let f = look_at(p.as_str(), false);
            let ghost g = f;
            let r = local_input_verdict(input, f);
            assert(single_with(input@, g, r));
            r
        },
    }
}

/// `input` is a URL as the player reads it.
pub open spec fn is_url_input(input: Seq<char>) -> bool {
    classify_input(input) is Ok && classify_input(input)->Ok_0.0
}

/// Validates every input, in order, stopping at the first that fails; at least one
/// input is required. For some findings of the disk, one per input, the result is what
/// `list_with` says.
pub fn validate_playback_inputs(inputs: &[String]) -> (res: Result<Vec<String>, Error>)
    ensures
        exists|fs: Seq<DiskFinding>| fs.len() == inputs@.len() && list_with(views(inputs@), fs, res),
        (inputs@.len() > 0 && forall|i: int|
            0 <= i < inputs@.len() ==> is_url_input(#[trigger] inputs@[i]@)) ==> res is Ok,
        (exists|i: int| 0 <= i < inputs@.len() && #[trigger] classify_input(inputs@[i]@) is Err)
            ==> res is Err,
{
    let ghost ins = views(inputs@);
    if inputs.len() == 0 {
        let r = Err(Error::InvalidInput(String::from_str("at least one playback input is required")));
        assert(list_with(ins, Seq::<DiskFinding>::empty(), r));
        return r;
    }
    let mut out: Vec<String> = Vec::new();
    let ghost mut fs: Seq<DiskFinding> = Seq::empty();
    let mut i: usize = 0;
    while i < inputs.len()
        invariant
            ins == views(inputs@),
            i <= inputs@.len(),
            out@.len() == i,
            fs.len() == i,
            forall|j: int| 0 <= j < i ==> single_with(ins[j], fs[j], Ok(#[trigger] out@[j])),
        decreases inputs@.len() - i,
    {
        let r = validate_playback_input(inputs[i].as_str());
        let ghost rg = r;
        let ghost f = choose|f: DiskFinding| single_with(ins[i as int], f, rg);
        assert(ins[i as int] == inputs@[i as int]@);
        match r {
            Ok(s) => {
                out.push(s);
                proof {
                    fs = fs.push(f);
                }
                assert(out@[i as int] == s);
            },
            Err(e) => {
                assert(!is_url_input(inputs@[i as int]@));
                let ghost gs = fs.push(f) + Seq::new((inputs@.len() - i - 1) as nat, |k: int| DiskFinding::Missing);
                assert(gs.len() == inputs@.len());
                assert(gs[i as int] == f);
                assert forall|j: int| 0 <= j < i implies gs[j] == fs[j] by {}
                assert forall|j: int| 0 <= j < i implies passes_with(#[trigger] ins[j], gs[j]) by {
                    assert(single_with(ins[j], gs[j], Ok(out@[j])));
                }
                assert(rg == Err::<String, Error>(e));
                assert(single_with(ins[i as int], gs[i as int], Err(e)));
                assert(list_with(ins, gs, Err(e)));
                return Err(e);
            },
        }
        i += 1;
    }
    assert(list_with(ins, fs, Ok(out)));
    assert forall|j: int| 0 <= j < inputs@.len() implies !(#[trigger] classify_input(
        inputs@[j]@,
    ) is Err) by {
        assert(ins[j] == inputs@[j]@);
        assert(single_with(ins[j], fs[j], Ok(out@[j])));
    }
    Ok(out)
}

/// Validating the same input twice, the disk showing the same of it both times, gives
/// the same answer: both pass with the same text, or both fail.
pub proof fn lemma_single_with_agrees(
    input: Seq<char>,
    f: DiskFinding,
    r1: Result<String, Error>,
    r2: Result<String, Error>,
)
    requires
        single_with(input, f, r1),
        single_with(input, f, r2),
    ensures
        (r1 is Ok) == (r2 is Ok),
        r1 is Ok ==> r1->Ok_0@ == r2->Ok_0@,
{
}

/// Validating a list is validating each of its inputs on their own, the disk showing
/// the same of each: the list is accepted exactly when it is not empty and every input
/// is, each output then being that input's; when it is refused, some input is refused
/// on its own and every input before it accepted.
pub proof fn lemma_list_is_each_input(
    inputs: Seq<Seq<char>>,
    fs: Seq<DiskFinding>,
    res: Result<Vec<String>, Error>,
    each: Seq<Result<String, Error>>,
)
    requires
        fs.len() == inputs.len(),
        each.len() == inputs.len(),
        list_with(inputs, fs, res),
        forall|i: int| 0 <= i < inputs.len() ==> single_with(inputs[i], fs[i], #[trigger] each[i]),
    ensures
        (res is Ok) == (inputs.len() > 0 && forall|i: int| 0 <= i < inputs.len() ==> (#[trigger] each[i]) is Ok),
        res matches Ok(v) ==> forall|i: int| 0 <= i < inputs.len() ==> (#[trigger] v@[i])@ == each[i]->Ok_0@,
        res is Err && inputs.len() > 0 ==> exists|i: int| 0 <= i < inputs.len() && (#[trigger] each[i]) is Err
            && forall|j: int| 0 <= j < i ==> (#[trigger] each[j]) is Ok,
{
    if inputs.len() > 0 {
        match res {
            Ok(v) => {
                assert forall|i: int| 0 <= i < inputs.len() implies (#[trigger] each[i]) is Ok
                    && v@[i]@ == each[i]->Ok_0@ by {
                    lemma_single_with_agrees(inputs[i], fs[i], Ok(v@[i]), each[i]);
                }
            },
            Err(e) => {
                let i = choose|i: int| 0 <= i < inputs.len()
                    && single_with(#[trigger] inputs[i], fs[i], Err(e))
                    && forall|j: int| 0 <= j < i ==> passes_with(#[trigger] inputs[j], fs[j]);
                lemma_single_with_agrees(inputs[i], fs[i], Err(e), each[i]);
                assert forall|j: int| 0 <= j < i implies (#[trigger] each[j]) is Ok by {
                    assert(passes_with(inputs[j], fs[j]));
                    let s = choose|s: String| single_with(inputs[j], fs[j], Ok(s));
                    lemma_single_with_agrees(inputs[j], fs[j], Ok(s), each[j]);
                }
            },
        }
    }
}

/// A validated input is a fixed point: validating its output again, the disk showing
/// the same of it as before, gives the output back. A URL needs nothing of the disk; a
/// local file needs its canonical path to read as that same local path (trimmed, with
/// no `..` component and no NUL).
pub proof fn lemma_validation_fixed_point(input: Seq<char>, f: DiskFinding, out: String)
    requires
        single_with(input, f, Ok(out)),
        !is_url_input(input) ==> classify_input(out@) == Ok::<(bool, Seq<char>), Seq<char>>((false, out@)),
    ensures
        is_url_input(input) ==> forall|g: DiskFinding| single_with(out@, g, Ok(out)),
        single_with(out@, f, Ok(out)),
{
    if is_url_input(input) {
        lemma_accepted_reads_the_same(input);
    }
}

} // verus!
