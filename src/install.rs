use crate::version::{dec, decimal};
use vstd::prelude::*;

verus! {

/// The arguments handed to `tar`: extract `archive` into `dest`, dropping the
/// first component of every member's path.
pub open spec fn tar_args_spec(archive: Seq<char>, dest: Seq<char>) -> Seq<Seq<char>> {
    seq!["-xvf"@, archive, "-C"@, dest, "--strip-components="@ + dec(stripped_components())]
}

/// The number of leading components that extraction drops: the archive's
/// top-level directory.
pub const STRIPPED_COMPONENTS: u64 = 1;

pub open spec fn stripped_components() -> nat {
    STRIPPED_COMPONENTS as nat
}

/// The path of an archive member with its first `n` components dropped, or
/// `None` where it has no more than `n` components.
pub open spec fn strip_components(member: Seq<char>, n: nat) -> Option<Seq<char>>
    decreases n,
{
    if n == 0 {
        Some(member)
    } else {
        let i = member.index_of_first('/');
        match i {
            Some(k) => strip_components(member.subrange(k + 1, member.len() as int), (n - 1) as nat),
            None => None,
        }
    }
}

/// Where extraction into `dest` puts an archive member.
pub open spec fn extracted_at(dest: Seq<char>, member: Seq<char>) -> Option<Seq<char>> {
    match strip_components(member, stripped_components()) {
        Some(rest) => Some(crate::paths::path_join(dest, rest)),
        None => None,
    }
}

/// Members under an archive's single top-level directory land directly in
/// the install path, not under a directory of that name.
pub proof fn lemma_top_level_stripped(dest: Seq<char>, top: Seq<char>, rest: Seq<char>)
    requires
        !top.contains('/'),
    ensures
        extracted_at(dest, top + seq!['/'] + rest) == Some(crate::paths::path_join(dest, rest)),
{
    let m = top + seq!['/'] + rest;
    assert(m[top.len() as int] == '/');
    m.index_of_first_ensures('/');
    let k = m.index_of_first('/');
    assert(k == Some(top.len() as int)) by {
        if let Some(j) = k {
            if j < top.len() {
                assert(top[j] == m[j]);
            }
        }
    }
    assert(m.subrange(top.len() as int + 1, m.len() as int) =~= rest);
    assert(strip_components(rest, 0) == Some(rest));
}

/// The arguments for `tar` that extract `archive` into `dest`.
pub fn tar_arguments(archive: &str, dest: &str) -> (r: Vec<String>)
    ensures
        r.deep_view() == tar_args_spec(archive@, dest@),
{
    let mut r: Vec<String> = Vec::new();
    r.push(String::from_str("-xvf"));
    r.push(String::from_str(archive));
    r.push(String::from_str("-C"));
    r.push(String::from_str(dest));
    let count = decimal(STRIPPED_COMPONENTS);
    r.push(String::from_str("--strip-components=").concat(count.as_str()));
    assert(r.deep_view() =~= tar_args_spec(archive@, dest@));
    r
}

pub open spec fn extraction_spec(success: bool, diagnostic: Seq<char>) -> Result<(), Seq<char>> {
    if success {
        Ok(())
    } else {
        Err("tar -xvf failed: "@ + diagnostic)
    }
}

/// The outcome of an extraction, from whether the tool succeeded and what it
/// printed on its error stream.
pub fn extraction_result(success: bool, diagnostic: &str) -> (r: Result<(), String>)
    ensures
        match (r, extraction_spec(success, diagnostic@)) {
            (Ok(_), Ok(_)) => true,
            (Err(m), Err(n)) => m@ == n,
            _ => false,
        },
{
    if success {
        Ok(())
    } else {
        Err(String::from_str("tar -xvf failed: ").concat(diagnostic))
    }
}

/// The text `{:?}` writes for the string `s`: quoted, with special characters
/// escaped.
pub uninterp spec fn debug_quoted(s: Seq<char>) -> Seq<char>;

/// A printable ASCII character other than `"` and `\`, which `{:?}` writes as is.
pub open spec fn is_plain_char(c: char) -> bool {
    ' ' <= c && c <= '~' && c != '"' && c != '\\'
}

/// Relies on the `Debug` formatting of `str`: the text is wrapped in double
/// quotes, and printable ASCII characters other than `"` and `\` stand as
/// they are.
#[verifier::external_body]
fn debug_text(s: &str) -> (r: String)
    ensures
        r@ == debug_quoted(s@),
        r@.len() >= 2 && r@[0] == '"' && r@.last() == '"',
        (forall|i: int| 0 <= i < s@.len() ==> is_plain_char(#[trigger] s@[i])) ==> r@ == seq!['"']
            + s@ + seq!['"'],
{
    format!("{:?}", s)
}

pub open spec fn script_spec(success: bool, quoted: Seq<char>, output: Seq<char>) -> Result<
    Seq<char>,
    Seq<char>,
> {
    if success {
        Ok(output)
    } else {
        Err("script failed: "@ + quoted)
    }
}

/// The outcome of a shell script, from whether it succeeded, the script as
/// `{:?}` writes it, and what it printed.
pub fn script_result_quoted(success: bool, quoted: &str, output: String) -> (r: Result<
    String,
    String,
>)
    ensures
        match (r, script_spec(success, quoted@, output@)) {
            (Ok(s), Ok(t)) => s@ == t,
            (Err(m), Err(n)) => m@ == n,
            _ => false,
        },
{
    if success {
        Ok(output)
    } else {
        Err(String::from_str("script failed: ").concat(quoted))
    }
}

/// The outcome of a shell script, from whether it succeeded and what it
/// printed; a failure names the script quoted.
pub fn script_result(success: bool, script: &str, output: String) -> (r: Result<String, String>)
    ensures
        match (r, script_spec(success, debug_quoted(script@), output@)) {
            (Ok(s), Ok(t)) => s@ == t,
            (Err(m), Err(n)) => m@ == n,
            _ => false,
        },
{
    let quoted = debug_text(script);
    script_result_quoted(success, quoted.as_str(), output)
}

/// The total that a download's progress counts up to: the announced length,
/// or 0 (unknown) where none was announced.
pub fn progress_total(content_length: Option<u64>) -> (r: u64)
    ensures
        r == match content_length {
            Some(n) => n,
            None => 0,
        },
{
    match content_length {
        Some(n) => n,
        None => 0,
    }
}

} // verus!
