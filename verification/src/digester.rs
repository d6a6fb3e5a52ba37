//! The streaming digester.
//!
//! The digester looks at the bytes received so far and classifies the
//! front of the buffer into exactly one of: nothing complete yet (give it
//! more bytes), a stray `OK\r\n` to swallow, a complete URC line, a
//! complete response with its body, or a complete error reply.  It never
//! consumes bytes that do not yet form a complete record, and it consumes
//! exactly the first record when one is complete.
//!
//! The rules are tried in a fixed order; the first that does not miss
//! decides.  A rule that has matched the front of the input but still
//! waits for its terminator makes the whole classification "incomplete",
//! with nothing consumed.
//!
//!  1. a stray `OK\r\n` at the front is swallowed;
//!  2. a line opened by a URC tag (`+JOIN: `, `+MSGHEX: `, `+CMSGHEX: `,
//!     `+MSG: `) is a URC as soon as its `\r\n` arrives — it never waits
//!     for an `OK`, and an unreadable body still consumes the line;
//!  3. a line opened by one of the recognised reply tags is a response,
//!     its envelope stripped (`+ID: ` and `+KEY: ` also drop the subkey;
//!     `+RESET: ` ends at `\r\n` plus a stray NUL; the counter and echo
//!     replies keep the whole line as body);
//!  4. anything closed by `\r\nOK\r\n` is a response, whitespace-trimmed;
//!  5. `<prefix>: ERROR(-n)\r\n` for a recognised code `n` is a numbered
//!     error;
//!  6. `\r\nERROR\r\n` anywhere is a generic error.

use vstd::prelude::*;

use crate::scan::{find_sub, has_prefix};
use crate::urc::{URCMessages, URCView};

verus! {

/// An error reply, as the digester classified it.
#[derive(Debug, Clone)]
pub enum InternalError {
    /// The generic `ERROR` terminator.
    Generic,
    /// A numbered `ERROR(-n)` reply; the token text is kept.
    Custom(Vec<u8>),
}

/// Ghost image of an error reply.
pub enum InternalErrorView {
    /// The generic `ERROR` terminator.
    Generic,
    /// A numbered `ERROR(-n)` reply; the token text is kept.
    Custom(Seq<u8>),
}

impl View for InternalError {
    type V = InternalErrorView;

    open spec fn view(&self) -> InternalErrorView {
        match self {
            InternalError::Generic => InternalErrorView::Generic,
            InternalError::Custom(v) => InternalErrorView::Custom(v@),
        }
    }
}

/// What the digester found at the front of the buffer.
#[derive(Debug)]
pub enum DigestResult {
    /// Nothing complete yet, or a swallowed stray `OK\r\n`.
    Nothing,
    /// A complete response, successful or not.
    Response(Result<Vec<u8>, InternalError>),
    /// A complete unsolicited line.
    Urc(URCMessages),
}

/// Ghost image of a classification.
pub enum DigestView {
    /// Nothing complete yet, or a swallowed stray `OK\r\n`.
    Nothing,
    /// A complete response, successful or not.
    Response(Result<Seq<u8>, InternalErrorView>),
    /// A complete unsolicited line.
    Urc(URCView),
}

impl View for DigestResult {
    type V = DigestView;

    open spec fn view(&self) -> DigestView {
        match self {
            DigestResult::Nothing => DigestView::Nothing,
            DigestResult::Response(Ok(v)) => DigestView::Response(Ok(v@)),
            DigestResult::Response(Err(e)) => DigestView::Response(Err(e@)),
            DigestResult::Urc(u) => DigestView::Urc(u@),
        }
    }
}

/// Outcome of parsing, where more bytes may make the difference.
#[derive(Debug, Clone, Copy, PartialEq, Eq, Structural)]
pub enum ParseError {
    /// The front of the input fits the rule but its end has not arrived.
    Incomplete,
    /// The rule does not apply to this input.
    NoMatch,
}

/// Outcome of one classification rule.
pub enum RuleStep {
    /// The rule recognised a complete record.
    Match(DigestView, int),
    /// The rule fits the front of the input but needs more bytes.
    Incomplete,
    /// The rule does not apply.
    Miss,
}

/// `s` is a proper prefix of `pat`.
pub open spec fn is_partial(s: Seq<u8>, pat: Seq<u8>) -> bool {
    s.len() < pat.len() && pat.subrange(0, s.len() as int) == s
}

/// The later rule applies only where the earlier one misses.
pub open spec fn chain(a: RuleStep, b: RuleStep) -> RuleStep {
    match a {
        RuleStep::Miss => b,
        _ => a,
    }
}

/// Rule 1: a stray `OK\r\n` at the front of the buffer is swallowed
/// without classifying anything.
pub open spec fn stray_ok_step(s: Seq<u8>) -> RuleStep {
    if has_prefix(s, crate::tags::spec_ok_line()) {
        RuleStep::Match(DigestView::Nothing, 4)
    } else if is_partial(s, crate::tags::spec_ok_line()) {
        RuleStep::Incomplete
    } else {
        RuleStep::Miss
    }
}

/// One URC tag: a complete line is a URC — readable or not — and an
/// incomplete one asks for more bytes.
pub open spec fn urc_tag_step(s: Seq<u8>, tag: Seq<u8>) -> RuleStep {
    if has_prefix(s, tag) {
        let t = find_sub(s, crate::tags::spec_crlf());
        if t < 0 {
            RuleStep::Incomplete
        } else {
            let line = s.subrange(0, t);
            match URCMessages::spec_parse(line) {
                Some(u) => RuleStep::Match(DigestView::Urc(u), t + 2),
                None => RuleStep::Match(DigestView::Urc(URCView::Unknown), t + 2),
            }
        }
    } else if is_partial(s, tag) {
        RuleStep::Incomplete
    } else {
        RuleStep::Miss
    }
}

/// Rule 2: the four URC tags.
pub open spec fn urc_step(s: Seq<u8>) -> RuleStep {
    chain(urc_tag_step(s, crate::tags::spec_join_tag()),
    chain(urc_tag_step(s, crate::tags::spec_msghex_tag()),
    chain(urc_tag_step(s, crate::tags::spec_cmsghex_tag()),
          urc_tag_step(s, crate::tags::spec_msg_tag()))))
}

/// A reply line whose body is everything between the tag and `\r\n`.
pub open spec fn strip_step(s: Seq<u8>, tag: Seq<u8>) -> RuleStep {
    if has_prefix(s, tag) {
        let t = find_sub(s, crate::tags::spec_crlf());
        if t < 0 {
            RuleStep::Incomplete
        } else if t < tag.len() {
            RuleStep::Miss
        } else {
            RuleStep::Match(DigestView::Response(Ok(s.subrange(tag.len() as int, t))), t + 2)
        }
    } else if is_partial(s, tag) {
        RuleStep::Incomplete
    } else {
        RuleStep::Miss
    }
}

/// A reply line kept whole as its own body.
pub open spec fn whole_step(s: Seq<u8>, tag: Seq<u8>) -> RuleStep {
    if has_prefix(s, tag) {
        let t = find_sub(s, crate::tags::spec_crlf());
        if t < 0 {
            RuleStep::Incomplete
        } else {
            RuleStep::Match(DigestView::Response(Ok(s.subrange(0, t))), t + 2)
        }
    } else if is_partial(s, tag) {
        RuleStep::Incomplete
    } else {
        RuleStep::Miss
    }
}

/// A reply line carrying a subkey: the body starts after the first space
/// that follows the tag.  A complete line without that space stays
/// unclassified.
pub open spec fn subkey_step(s: Seq<u8>, tag: Seq<u8>) -> RuleStep {
    if has_prefix(s, tag) {
        let t = find_sub(s, crate::tags::spec_crlf());
        if t < 0 {
            RuleStep::Incomplete
        } else if t < tag.len() {
            RuleStep::Miss
        } else {
            let sp = find_sub(s.subrange(tag.len() as int, t), crate::tags::spec_space());
            if sp < 0 {
                RuleStep::Incomplete
            } else {
                RuleStep::Match(
                    DigestView::Response(Ok(s.subrange(tag.len() + sp + 1, t))), t + 2)
            }
        }
    } else if is_partial(s, tag) {
        RuleStep::Incomplete
    } else {
        RuleStep::Miss
    }
}

/// The reset preamble: terminated by `\r\n` plus a stray NUL byte.
pub open spec fn reset_step(s: Seq<u8>) -> RuleStep {
    let tag = crate::tags::spec_reset_tag();
    if has_prefix(s, tag) {
        let t = find_sub(s, crate::tags::spec_reset_term());
        if t < 0 {
            RuleStep::Incomplete
        } else if t < tag.len() {
            RuleStep::Miss
        } else {
            RuleStep::Match(DigestView::Response(Ok(s.subrange(tag.len() as int, t))), t + 3)
        }
    } else if is_partial(s, tag) {
        RuleStep::Incomplete
    } else {
        RuleStep::Miss
    }
}

/// Rule 3: the recognised reply envelopes.
pub open spec fn custom_success_step(s: Seq<u8>) -> RuleStep {
    chain(strip_step(s, crate::tags::spec_at_tag()),
    chain(whole_step(s, crate::tags::spec_ate_tag()),
    chain(reset_step(s),
    chain(strip_step(s, crate::tags::spec_ver_tag()),
    chain(subkey_step(s, crate::tags::spec_id_tag()),
    chain(strip_step(s, crate::tags::spec_mode_tag()),
    chain(strip_step(s, crate::tags::spec_dr_tag()),
    chain(strip_step(s, crate::tags::spec_class_tag()),
    chain(strip_step(s, crate::tags::spec_adr_tag()),
    chain(strip_step(s, crate::tags::spec_lw_tag()),
    chain(subkey_step(s, crate::tags::spec_key_tag()),
    chain(whole_step(s, crate::tags::spec_join_std_tag()),
    chain(strip_step(s, crate::tags::spec_recvb_tag()),
    chain(whole_step(s, crate::tags::spec_up_cnt_tag()),
          whole_step(s, crate::tags::spec_down_cnt_tag())))))))))))))))
}

/// Is `b` ASCII whitespace?
pub open spec fn is_ws(b: u8) -> bool {
    b == 32 || b == 9 || b == 13 || b == 10
}

/// `s` without leading whitespace.
pub open spec fn trim_front(s: Seq<u8>) -> Seq<u8>
    decreases s.len(),
{
    if s.len() > 0 && is_ws(s[0]) {
        trim_front(s.skip(1))
    } else {
        s
    }
}

/// `s` without trailing whitespace.
pub open spec fn trim_back(s: Seq<u8>) -> Seq<u8>
    decreases s.len(),
{
    if s.len() > 0 && is_ws(s.last()) {
        trim_back(s.drop_last())
    } else {
        s
    }
}

/// `s` without surrounding whitespace.
pub open spec fn trim_ws(s: Seq<u8>) -> Seq<u8> {
    trim_back(trim_front(s))
}

/// Rule 4: anything closed by the generic `\r\nOK\r\n` terminator is a
/// successful response; its body is what stood before, trimmed.
pub open spec fn generic_success_step(s: Seq<u8>) -> RuleStep {
    let p = find_sub(s, crate::tags::spec_ok_term());
    if p < 0 {
        RuleStep::Miss
    } else {
        RuleStep::Match(DigestView::Response(Ok(trim_ws(s.subrange(0, p)))), p + 6)
    }
}

/// The numbered error codes the modem is known to produce.
pub open spec fn spec_err_codes() -> Seq<u8> {
    seq![1u8, 2u8, 3u8, 5u8, 7u8, 10u8, 11u8, 12u8, 20u8, 21u8, 22u8, 23u8, 24u8]
}

/// The token text `ERROR(-n)`.
pub open spec fn spec_err_token(n: u8) -> Seq<u8> {
    crate::tags::spec_error_open() + crate::hex::dec_rep(n as nat) + seq![41u8]
}

/// Scanning the code list from position `i` for a token that follows the
/// front of `rest`.
pub open spec fn err_scan(rest: Seq<u8>, i: nat) -> RuleStep
    decreases spec_err_codes().len() - i,
{
    if i >= spec_err_codes().len() {
        RuleStep::Miss
    } else {
        let n = spec_err_codes()[i as int];
        let pat = spec_err_token(n) + crate::tags::spec_crlf();
        if has_prefix(rest, pat) {
            RuleStep::Match(DigestView::Response(Err(InternalErrorView::Custom(
                spec_err_token(n)))), pat.len() as int)
        } else if is_partial(rest, pat) {
            RuleStep::Incomplete
        } else {
            err_scan(rest, i + 1)
        }
    }
}

/// Rule 5: `<prefix>: ERROR(-n)\r\n` after the first `: ` of the buffer.
/// Without a `: ` yet the rule waits for more bytes.
pub open spec fn custom_error_step(s: Seq<u8>) -> RuleStep {
    let q = find_sub(s, crate::tags::spec_colon_sp());
    if q < 0 {
        RuleStep::Incomplete
    } else {
        match err_scan(s.skip(q + 2), 0) {
            RuleStep::Match(v, c) => RuleStep::Match(v, q + 2 + c),
            RuleStep::Incomplete => RuleStep::Incomplete,
            RuleStep::Miss => RuleStep::Miss,
        }
    }
}

/// Rule 6: the generic `\r\nERROR\r\n` terminator.
pub open spec fn generic_error_step(s: Seq<u8>) -> RuleStep {
    let p = find_sub(s, crate::tags::spec_error_term());
    if p < 0 {
        RuleStep::Miss
    } else {
        RuleStep::Match(DigestView::Response(Err(InternalErrorView::Generic)), p + 9)
    }
}

/// The whole rule chain, before the incomplete/miss outcomes collapse.
pub open spec fn digest_chain(s: Seq<u8>) -> RuleStep {
    chain(stray_ok_step(s),
    chain(urc_step(s),
    chain(custom_success_step(s),
    chain(generic_success_step(s),
    chain(custom_error_step(s),
          generic_error_step(s))))))
}

/// What one call of the digester returns on `s`: the classification and
/// the number of bytes consumed.  Both incomplete input and input that no
/// rule recognises classify as nothing, consuming nothing.
pub open spec fn digest_spec(s: Seq<u8>) -> (DigestView, int) {
    match digest_chain(s) {
        RuleStep::Match(v, c) => (v, c),
        RuleStep::Incomplete => (DigestView::Nothing, 0),
        RuleStep::Miss => (DigestView::Nothing, 0),
    }
}

/// Executable outcome of one rule.
pub enum ExecStep {
    /// The rule recognised a complete record.
    Match(DigestResult, usize),
    /// The rule fits the front of the input but needs more bytes.
    Incomplete,
    /// The rule does not apply.
    Miss,
}

impl View for ExecStep {
    type V = RuleStep;

    open spec fn view(&self) -> RuleStep {
        match self {
            ExecStep::Match(d, c) => RuleStep::Match(d@, *c as int),
            ExecStep::Incomplete => RuleStep::Incomplete,
            ExecStep::Miss => RuleStep::Miss,
        }
    }
}

/// The digester.  It keeps no state of its own: everything lives in the
/// caller's buffer.
#[derive(Debug, Clone, Copy, PartialEq, Eq, Structural)]
pub struct LoraE5Digester {}

impl LoraE5Digester {
    /// A fresh digester.
    pub fn new() -> (r: Self) {
        LoraE5Digester {}
    }

    /// Classifies the front of `input`: the classification and the number
    /// of bytes it consumed, exactly as [`digest_spec`] gives them.
    pub fn digest(&mut self, input: &[u8]) -> (r: (DigestResult, usize))
        ensures
            (r.0@, r.1 as int) == digest_spec(input@),
            r.0.wf(),
    {
        let st = Self::run_chain(input);
        match st {
            ExecStep::Match(d, c) => (d, c),
            ExecStep::Incomplete => (DigestResult::Nothing, 0),
            ExecStep::Miss => (DigestResult::Nothing, 0),
        }
    }

    fn run_chain(input: &[u8]) -> (r: ExecStep)
        ensures
            r@ == digest_chain(input@),
            r matches ExecStep::Match(d, _) ==> d.wf(),
    {
        let s1 = Self::stray_ok(input);
        if !matches!(s1, ExecStep::Miss) {
            return s1;
        }
        let s2 = Self::urc(input);
        if !matches!(s2, ExecStep::Miss) {
            return s2;
        }
        let s3 = Self::custom_success_rule(input);
        if !matches!(s3, ExecStep::Miss) {
            return s3;
        }
        let s4 = Self::generic_success(input);
        if !matches!(s4, ExecStep::Miss) {
            return s4;
        }
        let s5 = Self::custom_error_rule(input);
        if !matches!(s5, ExecStep::Miss) {
            return s5;
        }
        Self::generic_error(input)
    }

    fn stray_ok(input: &[u8]) -> (r: ExecStep)
        ensures
            r@ == stray_ok_step(input@),
            r matches ExecStep::Match(d, _) ==> d.wf(),
    {
        let ok = crate::tags::ok_line();
        if crate::scan::starts_with(input, ok.as_slice()) {
            ExecStep::Match(DigestResult::Nothing, 4)
        } else if input.len() < ok.len() && crate::scan::is_prefix(input, ok.as_slice()) {
            ExecStep::Incomplete
        } else {
            ExecStep::Miss
        }
    }

    fn urc_tag_rule(input: &[u8], tag: &Vec<u8>) -> (r: ExecStep)
        ensures
            r@ == urc_tag_step(input@, tag@),
            r matches ExecStep::Match(d, _) ==> d.wf(),
    {
        if crate::scan::starts_with(input, tag.as_slice()) {
            let crlf = crate::tags::crlf();
            let n = input.len();
            match crate::scan::find(input, crlf.as_slice()) {
                None => ExecStep::Incomplete,
                Some(t) => {
                    proof {
                        assert(t + 2 <= n);
                    }
                    let line = vstd::slice::slice_subrange(input, 0, t);
                    proof {
                        assert(line@ =~= input@.subrange(0, t as int));
                    }
                    let urc = match URCMessages::parse(line) {
                        Some(u) => u,
                        None => URCMessages::Unknown,
                    };
                    ExecStep::Match(DigestResult::Urc(urc), t + 2)
                },
            }
        } else if input.len() < tag.len() && crate::scan::is_prefix(input, tag.as_slice()) {
            ExecStep::Incomplete
        } else {
            ExecStep::Miss
        }
    }

    fn urc(input: &[u8]) -> (r: ExecStep)
        ensures
            r@ == urc_step(input@),
            r matches ExecStep::Match(d, _) ==> d.wf(),
    {
        let s = Self::urc_tag_rule(input, &crate::tags::join_tag());
        if !matches!(s, ExecStep::Miss) {
            return s;
        }
        let s = Self::urc_tag_rule(input, &crate::tags::msghex_tag());
        if !matches!(s, ExecStep::Miss) {
            return s;
        }
        let s = Self::urc_tag_rule(input, &crate::tags::cmsghex_tag());
        if !matches!(s, ExecStep::Miss) {
            return s;
        }
        Self::urc_tag_rule(input, &crate::tags::msg_tag())
    }

    fn strip_rule(input: &[u8], tag: &Vec<u8>) -> (r: ExecStep)
        ensures
            r@ == strip_step(input@, tag@),
            r matches ExecStep::Match(d, _) ==> d.wf(),
    {
        if crate::scan::starts_with(input, tag.as_slice()) {
            let crlf = crate::tags::crlf();
            let n = input.len();
            match crate::scan::find(input, crlf.as_slice()) {
                None => ExecStep::Incomplete,
                Some(t) => {
                    proof {
                        assert(t + 2 <= n);
                    }
                    if t < tag.len() {
                        return ExecStep::Miss;
                    }
                    let body = crate::hex::copy_bytes(
                        vstd::slice::slice_subrange(input, tag.len(), t));
                    ExecStep::Match(DigestResult::Response(Ok(body)), t + 2)
                },
            }
        } else if input.len() < tag.len() && crate::scan::is_prefix(input, tag.as_slice()) {
            ExecStep::Incomplete
        } else {
            ExecStep::Miss
        }
    }

    fn whole_rule(input: &[u8], tag: &Vec<u8>) -> (r: ExecStep)
        ensures
            r@ == whole_step(input@, tag@),
            r matches ExecStep::Match(d, _) ==> d.wf(),
    {
        if crate::scan::starts_with(input, tag.as_slice()) {
            let crlf = crate::tags::crlf();
            let n = input.len();
            match crate::scan::find(input, crlf.as_slice()) {
                None => ExecStep::Incomplete,
                Some(t) => {
                    proof {
                        assert(t + 2 <= n);
                    }
                    let body = crate::hex::copy_bytes(
                        vstd::slice::slice_subrange(input, 0, t));
                    ExecStep::Match(DigestResult::Response(Ok(body)), t + 2)
                },
            }
        } else if input.len() < tag.len() && crate::scan::is_prefix(input, tag.as_slice()) {
            ExecStep::Incomplete
        } else {
            ExecStep::Miss
        }
    }

    fn subkey_rule(input: &[u8], tag: &Vec<u8>) -> (r: ExecStep)
        ensures
            r@ == subkey_step(input@, tag@),
            r matches ExecStep::Match(d, _) ==> d.wf(),
    {
        if crate::scan::starts_with(input, tag.as_slice()) {
            let crlf = crate::tags::crlf();
            let n = input.len();
            match crate::scan::find(input, crlf.as_slice()) {
                None => ExecStep::Incomplete,
                Some(t) => {
                    proof {
                        assert(t + 2 <= n);
                    }
                    if t < tag.len() {
                        return ExecStep::Miss;
                    }
                    let line_rest = vstd::slice::slice_subrange(input, tag.len(), t);
                    proof {
                        assert(line_rest@ =~= input@.subrange(tag@.len() as int, t as int));
                    }
                    let space = crate::tags::space();
                    match crate::scan::find(line_rest, space.as_slice()) {
                        None => ExecStep::Incomplete,
                        Some(sp) => {
                            proof {
                                assert(sp + 1 <= line_rest@.len());
                                assert(tag@.len() + sp + 1 <= t);
                            }
                            let body = crate::hex::copy_bytes(vstd::slice::slice_subrange(
                                input, tag.len() + sp + 1, t));
                            proof {
                                assert(body@ =~= input@.subrange(
                                    tag@.len() + sp + 1, t as int));
                            }
                            ExecStep::Match(DigestResult::Response(Ok(body)), t + 2)
                        },
                    }
                },
            }
        } else if input.len() < tag.len() && crate::scan::is_prefix(input, tag.as_slice()) {
            ExecStep::Incomplete
        } else {
            ExecStep::Miss
        }
    }

    fn reset_rule(input: &[u8]) -> (r: ExecStep)
        ensures
            r@ == reset_step(input@),
            r matches ExecStep::Match(d, _) ==> d.wf(),
    {
        let tag = crate::tags::reset_tag();
        if crate::scan::starts_with(input, tag.as_slice()) {
            let term = crate::tags::reset_term();
            let n = input.len();
            match crate::scan::find(input, term.as_slice()) {
                None => ExecStep::Incomplete,
                Some(t) => {
                    proof {
                        assert(t + 3 <= n);
                    }
                    if t < tag.len() {
                        return ExecStep::Miss;
                    }
                    let body = crate::hex::copy_bytes(
                        vstd::slice::slice_subrange(input, tag.len(), t));
                    ExecStep::Match(DigestResult::Response(Ok(body)), t + 3)
                },
            }
        } else if input.len() < tag.len() && crate::scan::is_prefix(input, tag.as_slice()) {
            ExecStep::Incomplete
        } else {
            ExecStep::Miss
        }
    }

    /// The recognised reply envelopes, as the original digester interface
    /// names them: a body and a consumed count on success.
    pub fn custom_success(buf: &[u8]) -> (r: Result<(Vec<u8>, usize), ParseError>)
        ensures
            match r {
                Ok((body, c)) => custom_success_step(buf@)
                    == RuleStep::Match(DigestView::Response(Ok(body@)), c as int),
                Err(ParseError::Incomplete) => custom_success_step(buf@)
                    is Incomplete,
                Err(ParseError::NoMatch) => custom_success_step(buf@) is Miss,
            },
    {
        match Self::custom_success_rule(buf) {
            ExecStep::Match(DigestResult::Response(Ok(body)), c) => Ok((body, c)),
            ExecStep::Match(_, _) => {
                proof {
                    assert(false);
                }
                Err(ParseError::NoMatch)
            },
            ExecStep::Incomplete => Err(ParseError::Incomplete),
            ExecStep::Miss => Err(ParseError::NoMatch),
        }
    }

    fn custom_success_rule(input: &[u8]) -> (r: ExecStep)
        ensures
            r@ == custom_success_step(input@),
            r matches ExecStep::Match(d, _) ==> d.wf(),
    {
        let s = Self::strip_rule(input, &crate::tags::at_tag());
        if !matches!(s, ExecStep::Miss) {
            return s;
        }
        let s = Self::whole_rule(input, &crate::tags::ate_tag());
        if !matches!(s, ExecStep::Miss) {
            return s;
        }
        let s = Self::reset_rule(input);
        if !matches!(s, ExecStep::Miss) {
            return s;
        }
        let s = Self::strip_rule(input, &crate::tags::ver_tag());
        if !matches!(s, ExecStep::Miss) {
            return s;
        }
        let s = Self::subkey_rule(input, &crate::tags::id_tag());
        if !matches!(s, ExecStep::Miss) {
            return s;
        }
        let s = Self::strip_rule(input, &crate::tags::mode_tag());
        if !matches!(s, ExecStep::Miss) {
            return s;
        }
        let s = Self::strip_rule(input, &crate::tags::dr_tag());
        if !matches!(s, ExecStep::Miss) {
            return s;
        }
        let s = Self::strip_rule(input, &crate::tags::class_tag());
        if !matches!(s, ExecStep::Miss) {
            return s;
        }
        let s = Self::strip_rule(input, &crate::tags::adr_tag());
        if !matches!(s, ExecStep::Miss) {
            return s;
        }
        let s = Self::strip_rule(input, &crate::tags::lw_tag());
        if !matches!(s, ExecStep::Miss) {
            return s;
        }
        let s = Self::subkey_rule(input, &crate::tags::key_tag());
        if !matches!(s, ExecStep::Miss) {
            return s;
        }
        let s = Self::whole_rule(input, &crate::tags::join_std_tag());
        if !matches!(s, ExecStep::Miss) {
            return s;
        }
        let s = Self::strip_rule(input, &crate::tags::recvb_tag());
        if !matches!(s, ExecStep::Miss) {
            return s;
        }
        let s = Self::whole_rule(input, &crate::tags::up_cnt_tag());
        if !matches!(s, ExecStep::Miss) {
            return s;
        }
        Self::whole_rule(input, &crate::tags::down_cnt_tag())
    }

    fn generic_success(input: &[u8]) -> (r: ExecStep)
        ensures
            r@ == generic_success_step(input@),
            r matches ExecStep::Match(d, _) ==> d.wf(),
    {
        let term = crate::tags::ok_term();
        let n = input.len();
        match crate::scan::find(input, term.as_slice()) {
            None => ExecStep::Miss,
            Some(p) => {
                proof {
                    assert(p + 6 <= n);
                }
                let raw = vstd::slice::slice_subrange(input, 0, p);
                proof {
                    assert(raw@ =~= input@.subrange(0, p as int));
                }
                let body = trim_ws_exec(raw);
                ExecStep::Match(DigestResult::Response(Ok(body)), p + 6)
            },
        }
    }

    /// The numbered-error rule, taken alone: the token text and a
    /// consumed count on success, or whether more bytes could change that.
    pub fn custom_error(buf: &[u8]) -> (r: Result<(Vec<u8>, usize), ParseError>)
        ensures
            match r {
                Ok((body, c)) => custom_error_step(buf@)
                    == RuleStep::Match(DigestView::Response(Err(
                        InternalErrorView::Custom(body@))), c as int),
                Err(ParseError::Incomplete) => custom_error_step(buf@) is Incomplete,
                Err(ParseError::NoMatch) => custom_error_step(buf@) is Miss,
            },
    {
        match Self::custom_error_rule(buf) {
            ExecStep::Match(DigestResult::Response(Err(InternalError::Custom(body))), c) =>
                Ok((body, c)),
            ExecStep::Match(_, _) => {
                proof {
                    assert(false);
                }
                Err(ParseError::NoMatch)
            },
            ExecStep::Incomplete => Err(ParseError::Incomplete),
            ExecStep::Miss => Err(ParseError::NoMatch),
        }
    }

    fn custom_error_rule(input: &[u8]) -> (r: ExecStep)
        ensures
            r@ == custom_error_step(input@),
            r matches ExecStep::Match(d, _) ==> d.wf(),
            r matches ExecStep::Match(d, _) ==> d matches
                DigestResult::Response(Err(InternalError::Custom(_))),
    {
        let sep = crate::tags::colon_sp();
        let q = match crate::scan::find(input, sep.as_slice()) {
            None => {
                return ExecStep::Incomplete;
            },
            Some(q) => q,
        };
        let n = input.len();
        proof {
            assert(q + 2 <= n);
        }
        let rest = vstd::slice::slice_subrange(input, q + 2, n);
        proof {
            assert(rest@ =~= input@.skip(q + 2));
        }
        let codes: Vec<u8> = vec![1u8, 2u8, 3u8, 5u8, 7u8, 10u8, 11u8, 12u8, 20u8, 21u8,
            22u8, 23u8, 24u8];
        proof {
            assert(codes@ =~= spec_err_codes());
        }
        let mut i: usize = 0;
        while i < codes.len()
            invariant
                i <= codes@.len(),
                codes@ == spec_err_codes(),
                err_scan(rest@, 0) == err_scan(rest@, i as nat),
                n == input@.len(),
                find_sub(input@, crate::tags::spec_colon_sp()) == q as int,
                q + 2 <= n,
                rest@ == input@.skip(q + 2),
            decreases codes.len() - i,
        {
            let code = codes[i];
            let mut pat = crate::tags::error_open();
            let mut digits = crate::hex::dec_u32(code as u32);
            pat.append(&mut digits);
            pat.push(41u8);
            proof {
                assert(pat@ =~= spec_err_token(code));
            }
            let token_len = pat.len();
            let mut crlf = crate::tags::crlf();
            pat.append(&mut crlf);
            proof {
                assert(pat@ =~= spec_err_token(code) + crate::tags::spec_crlf());
            }
            if crate::scan::starts_with(rest, pat.as_slice()) {
                proof {
                    assert(pat@.len() <= rest@.len());
                    assert(q + 2 + pat@.len() <= n);
                }
                let token = vstd::slice::slice_subrange(pat.as_slice(), 0, token_len);
                proof {
                    assert(token@ =~= spec_err_token(code));
                }
                let body = crate::hex::copy_bytes(token);
                return ExecStep::Match(DigestResult::Response(Err(InternalError::Custom(
                    body))), q + 2 + pat.len());
            }
            if rest.len() < pat.len() && crate::scan::is_prefix(rest, pat.as_slice()) {
                return ExecStep::Incomplete;
            }
            i = i + 1;
        }
        ExecStep::Miss
    }

    fn generic_error(input: &[u8]) -> (r: ExecStep)
        ensures
            r@ == generic_error_step(input@),
            r matches ExecStep::Match(d, _) ==> d.wf(),
    {
        let term = crate::tags::error_term();
        let n = input.len();
        match crate::scan::find(input, term.as_slice()) {
            None => ExecStep::Miss,
            Some(p) => {
                proof {
                    assert(p + 9 <= n);
                }
                ExecStep::Match(DigestResult::Response(Err(InternalError::Generic)), p + 9)
            },
        }
    }
}

/// Reads the code `n` out of a numbered error token `ERROR(-n)`.
pub fn custom_error_code(token: &[u8]) -> (r: Option<u8>)
    ensures
        forall|n: u8| token@ == spec_err_token(n) ==> r == Some(n),
{
    let open = crate::tags::error_open();
    if !crate::scan::starts_with(token, open.as_slice()) {
        proof {
            assert forall|n: u8| token@ != spec_err_token(n) by {
                if token@ == spec_err_token(n) {
                    assert(has_prefix(token@, open@)) by {
                        assert(token@.subrange(0, 7) =~= crate::tags::spec_error_open());
                    }
                }
            }
        }
        return None;
    }
    if token.len() < 8 {
        proof {
            assert forall|n: u8| token@ != spec_err_token(n) by {
                assert(spec_err_token(n).len() >= 9);
            }
        }
        return None;
    }
    let digits = vstd::slice::slice_subrange(token, 7, token.len() - 1);
    let close = token[token.len() - 1];
    if close != 41u8 {
        proof {
            assert forall|n: u8| token@ != spec_err_token(n) by {
                if token@ == spec_err_token(n) {
                    assert(token@.last() == 41u8);
                }
            }
        }
        return None;
    }
    match crate::hex::parse_dec_u8(digits) {
        Some(v) => {
            proof {
                assert forall|n: u8| token@ == spec_err_token(n) implies v == n by {
                    assert(digits@ =~= crate::hex::dec_rep(n as nat)) by {
                        assert(token@.subrange(7, token@.len() - 1)
                            =~= crate::hex::dec_rep(n as nat));
                    }
                    crate::hex::lemma_dec_rep_val(n as nat);
                }
            }
            Some(v)
        },
        None => {
            proof {
                assert forall|n: u8| token@ != spec_err_token(n) by {
                    if token@ == spec_err_token(n) {
                        assert(digits@ =~= crate::hex::dec_rep(n as nat)) by {
                            assert(token@.subrange(7, token@.len() - 1)
                                =~= crate::hex::dec_rep(n as nat));
                        }
                        crate::hex::lemma_dec_rep_val(n as nat);
                    }
                }
            }
            None
        },
    }
}

/// Strips leading and trailing ASCII whitespace.
pub fn trim_ws_exec(s: &[u8]) -> (r: Vec<u8>)
    ensures
        r@ == trim_ws(s@),
    decreases s@.len(),
{
    if s.len() > 0 {
        let b = s[0];
        if b == 32 || b == 9 || b == 13 || b == 10 {
            let rest = vstd::slice::slice_subrange(s, 1, s.len());
            proof {
                assert(rest@ =~= s@.skip(1));
            }
            return trim_ws_exec(rest);
        }
    }
    proof {
        assert(trim_front(s@) == s@);
    }
    trim_back_exec(s)
}

fn trim_back_exec(s: &[u8]) -> (r: Vec<u8>)
    ensures
        r@ == trim_back(s@),
    decreases s@.len(),
{
    if s.len() > 0 {
        let b = s[s.len() - 1];
        if b == 32 || b == 9 || b == 13 || b == 10 {
            let rest = vstd::slice::slice_subrange(s, 0, s.len() - 1);
            proof {
                assert(rest@ =~= s@.drop_last());
            }
            return trim_back_exec(rest);
        }
    }
    crate::hex::copy_bytes(s)
}

impl DigestResult {
    /// A URC classification carries a well-formed event.
    pub open spec fn wf(&self) -> bool {
        match self {
            DigestResult::Urc(u) => u.wf(),
            _ => true,
        }
    }
}

} // verus!
