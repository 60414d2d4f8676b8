//! Which diagnostics the relay prints.

use vstd::prelude::*;

use crate::text::{chars_of, copy_text, is_white_space, text_view, white_space};

verus! {

/// The directives for detailed diagnostics.
pub const VERBOSE_DIRECTIVES: &'static str = "codex_app_server_transport=debug,codex_login=info,codex_state=info";

/// The directives where nothing else is asked for.
pub const DEFAULT_DIRECTIVES: &'static str = "warn";

/// Whether `tracing_subscriber::EnvFilter::try_new` takes these directives.
pub uninterp spec fn are_directives(directives: Seq<char>) -> bool;

/// Whether directives can be checked: between commas, what begins with white
/// space is ASCII.
pub open spec fn is_checkable(directives: Seq<char>) -> bool {
    forall|from: int, at: int|
        0 <= from <= at < directives.len() && is_white_space(#[trigger] directives[from])
            && begins_piece(directives, from) && !directives.subrange(from, at).contains(',')
            ==> #[trigger] directives[at] <= '\u{7f}'
}

/// Whether a piece between commas begins at an index.
pub open spec fn begins_piece(directives: Seq<char>, from: int) -> bool {
    from == 0 || directives[from - 1] == ','
}

/// Whether directives can be checked.
pub fn directives_are_checkable(directives: &str) -> (checkable: bool)
    ensures
        checkable == is_checkable(directives@),
{
    let chars = chars_of(directives);
    let ghost d = directives@;
    let len: usize = chars.len();
    let mut start: usize = 0;
    let mut blank = false;
    let mut i: usize = 0;
    while i < len
        invariant
            chars@ == d,
            len == d.len(),
            d == directives@,
            start <= i <= len,
            begins_piece(d, start as int),
            forall|j: int| start <= j < i ==> d[j] != ',',
            blank == (start < i && is_white_space(d[start as int])),
            forall|from: int, at: int|
                0 <= from <= at < i && is_white_space(#[trigger] d[from]) && begins_piece(d, from)
                    && !d.subrange(from, at).contains(',') ==> #[trigger] d[at] <= '\u{7f}',
        decreases len - i,
    {
        let c: char = chars[i];
        if i == start {
            blank = white_space(c);
        }
        proof {
            assert forall|from: int|
                0 <= from <= i && begins_piece(d, from) && !d.subrange(from, i as int).contains(',')
                implies from == start by {
                if from < start {
                    assert(d.subrange(from, i as int)[start - 1 - from] == ',');
                } else if from > start {
                    assert(d[from - 1] != ',');
                }
            }
            if d.subrange(start as int, i as int).contains(',') {
                let k = choose|k: int|
                    0 <= k < i - start && d.subrange(start as int, i as int)[k] == ',';
                assert(d[start + k] == ',');
            }
        }
        if blank && c > '\u{7f}' {
            assert(d[i as int] == c && is_white_space(d[start as int]));
            return false;
        }
        i += 1;
        if c == ',' {
            start = i;
            blank = false;
        }
    }
    true
}

/// `tracing_subscriber::EnvFilter::try_new`: whether every directive is valid.
///
/// It panics on some directives that begin with white space and are not ASCII,
/// because it cuts the text by places that it counted without the white space.
#[verifier::external_body]
fn directives_are_valid(directives: &str) -> (valid: bool)
    requires
        is_checkable(directives@),
    ensures
        valid == are_directives(directives@),
{
    tracing_subscriber::EnvFilter::try_new(directives).is_ok()
}

/// The directives to use: the detailed ones if `verbose`; else those of the
/// variable `RUST_LOG`, if it is set and they are `valid`; else the default.
pub open spec fn directives_for(
    verbose: bool,
    rust_log: Option<Seq<char>>,
    valid: bool,
) -> Seq<char> {
    match rust_log {
        _ if verbose => VERBOSE_DIRECTIVES@,
        Some(directives) if valid => directives,
        _ => DEFAULT_DIRECTIVES@,
    }
}

/// The directives to use, where `valid` says whether those of `RUST_LOG` are.
pub fn choose_directives(verbose: bool, rust_log: Option<String>, valid: bool) -> (directives: String)
    ensures
        directives@ == directives_for(verbose, text_view(rust_log), valid),
{
    if verbose {
        return VERBOSE_DIRECTIVES.to_owned();
    }
    match rust_log {
        Some(directives) if valid => directives,
        _ => DEFAULT_DIRECTIVES.to_owned(),
    }
}

/// Whether a variable is set, to valid directives.
pub open spec fn is_valid(rust_log: Option<Seq<char>>) -> bool {
    match rust_log {
        Some(directives) => are_directives(directives),
        None => false,
    }
}

/// Whether a variable holds nothing that cannot be checked.
pub open spec fn is_checkable_value(rust_log: Option<Seq<char>>) -> bool {
    match rust_log {
        Some(directives) => is_checkable(directives),
        None => true,
    }
}

/// The directives to use, given the value of `RUST_LOG`.
///
/// Detailed diagnostics are chosen without a look at `RUST_LOG`.
pub fn diagnostics_directives(verbose: bool, rust_log: Option<String>) -> (directives: String)
    requires
        verbose || is_checkable_value(text_view(rust_log)),
    ensures
        directives@ == directives_for(
            verbose,
            text_view(rust_log),
            is_valid(text_view(rust_log)),
        ),
{
    if verbose {
        return VERBOSE_DIRECTIVES.to_owned();
    }
    let valid = match &rust_log {
        Some(directives) => directives_are_valid(directives.as_str()),
        None => false,
    };
    choose_directives(verbose, rust_log, valid)
}

/// The directives to use, given the value of `RUST_LOG`; `None` where that value
/// would have to be checked and cannot be.
pub fn try_diagnostics_directives(verbose: bool, rust_log: &Option<String>) -> (directives: Option<
    String,
>)
    ensures
        match directives {
            Some(directives) => {
                &&& verbose || is_checkable_value(text_view(*rust_log))
                &&& directives@ == directives_for(
                    verbose,
                    text_view(*rust_log),
                    is_valid(text_view(*rust_log)),
                )
            },
            None => !verbose && !is_checkable_value(text_view(*rust_log)),
        },
{
    let checkable = match rust_log {
        Some(directives) => directives_are_checkable(directives.as_str()),
        None => true,
    };
    if verbose || checkable {
        Some(diagnostics_directives(verbose, copy_text(rust_log)))
    } else {
        None
    }
}

/// Detailed diagnostics are printed whenever they are asked for, whatever
/// `RUST_LOG` holds; otherwise its directives are used exactly where it is set and
/// they are valid, as they are; and otherwise only warnings are printed.
pub proof fn law_diagnostics_are_chosen(verbose: bool, rust_log: Option<Seq<char>>, valid: bool)
    ensures
        ({
            let directives = directives_for(verbose, rust_log, valid);
            &&& verbose ==> directives
                == "codex_app_server_transport=debug,codex_login=info,codex_state=info"@
            &&& !verbose && valid ==> (rust_log matches Some(given) ==> directives == given)
            &&& !verbose && !(valid && rust_log is Some) ==> directives == "warn"@
        }),
        is_valid(rust_log) <==> (rust_log matches Some(given) && are_directives(given)),
        is_checkable_value(rust_log) <==> (rust_log matches Some(given) ==> is_checkable(given)),
{
}

/// Directives in ASCII can be checked, and so can directives without white space.
pub proof fn law_plain_directives_are_checkable(directives: Seq<char>)
    requires
        (forall|i: int| 0 <= i < directives.len() ==> #[trigger] directives[i] <= '\u{7f}') || (
        forall|i: int| 0 <= i < directives.len() ==> !is_white_space(#[trigger] directives[i])),
    ensures
        is_checkable(directives),
{
}

} // verus!
