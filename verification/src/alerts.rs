//! Checks of the alerting routes: an alert is only stored once its
//! thresholds have been tried on a real measure.

use vstd::prelude::*;
use crate::errors::ApiError;
use crate::ids::{parsed_uuid, parse_uuid};
use crate::text::{chars_of, matches_at, replaced, replace_all};

verus! {

/// What `evalexpr::eval_boolean` gives for the expression `expr`: the
/// boolean it evaluates to, or the text of the error it reports.
pub uninterp spec fn evaluated_boolean(expr: Seq<char>) -> Result<bool, Seq<char>>;

/// The longest expression handed to evalexpr. Its parser and evaluator
/// recurse once per level of nesting, and the nesting of an expression is
/// at most its length: the bound keeps that recursion shallow.
pub const MAX_EXPRESSION_LEN: usize = 1024;

/// Every character of `s` is ASCII.
pub open spec fn is_ascii_text(s: Seq<char>) -> bool {
    forall|i: int| 0 <= i < s.len() ==> (#[trigger] s[i] as u32) < 128
}

/// A character that surely belongs to the same evalexpr token as its
/// neighbours: an ASCII letter or digit, `_`, `:`, `.` or `$`. Any other
/// character is taken as a possible token boundary.
pub open spec fn is_word_char(c: char) -> bool {
    ('a' <= c && c <= 'z') || ('A' <= c && c <= 'Z') || ('0' <= c && c <= '9') || c == '_' || c == ':'
        || c == '.' || c == '$'
}

/// `w` occurs in `s` at position `i` as a whole token: no word character
/// right before or right after it.
pub open spec fn word_at(s: Seq<char>, w: Seq<char>, i: int) -> bool {
    &&& 0 <= i <= s.len() - w.len()
    &&& s.skip(i).take(w.len() as int) == w
    &&& (i == 0 || !is_word_char(s[i - 1]))
    &&& (i + w.len() == s.len() || !is_word_char(s[i + w.len()]))
}

/// `w` occurs in `s` as a whole token, as a function's name does when the
/// expression calls it.
pub open spec fn occurs_word(s: Seq<char>, w: Seq<char>) -> bool {
    exists|i: int| #[trigger] word_at(s, w, i)
}

/// An expression that evalexpr evaluates without panicking or exhausting
/// the stack. evalexpr panics only in these calls: `str::substring` cut
/// inside a non-ASCII character (it slices at byte offsets), and, in builds
/// with overflow checks, `math::abs` of the least integer and `shl` or `shr`
/// by a shift outside 0 to 63; and its parser and evaluator recurse once per
/// level of nesting. Those cases hang on values computed while the
/// expression is evaluated, so the condition is one the text shows: at most
/// `MAX_EXPRESSION_LEN` characters, no call of `str::substring` unless the
/// text is ASCII (then every string it makes is ASCII and every cut falls
/// between characters), and no call of `math::abs`, `shl` or `shr`. It
/// rejects some expressions that evalexpr evaluates.
pub open spec fn evaluable(expr: Seq<char>) -> bool {
    &&& expr.len() <= MAX_EXPRESSION_LEN
    &&& (is_ascii_text(expr) || !occurs_word(expr, "str::substring"@))
    &&& !occurs_word(expr, "math::abs"@)
    &&& !occurs_word(expr, "shl"@)
    &&& !occurs_word(expr, "shr"@)
}

/// An expression is refused only for what can make evalexpr panic or
/// exhaust the stack: within `MAX_EXPRESSION_LEN` characters, every
/// expression that calls none of `math::abs`, `shl` and `shr`, and calls
/// `str::substring` only on ASCII text, is evaluated; comparisons and other
/// operators never make it refused.
pub proof fn lemma_evaluable_refuses_only_unsafe_calls(e: Seq<char>)
    ensures
        evaluable(e) <==> (e.len() <= MAX_EXPRESSION_LEN && (is_ascii_text(e) || !occurs_word(
            e,
            "str::substring"@,
        )) && !occurs_word(e, "math::abs"@) && !occurs_word(e, "shl"@) && !occurs_word(e, "shr"@)),
{
}

/// A threshold that is `evaluable` once the value is in place gives exactly
/// what evalexpr gives for it.
pub proof fn lemma_evaluable_threshold_is_evaluated(t: Seq<char>, v: Seq<char>)
    requires
        evaluable(threshold_with(t, v)),
    ensures
        threshold_outcome(t, v) == evaluated_boolean(replaced(t, seq!['$', 't', 'h', 'i', 's'], v)),
{
}

/// Tells whether `c` is a word character.
fn word_char(c: char) -> (r: bool)
    ensures
        r == is_word_char(c),
{
    ('a' <= c && c <= 'z') || ('A' <= c && c <= 'Z') || ('0' <= c && c <= '9') || c == '_' || c == ':'
        || c == '.' || c == '$'
}

/// Tells whether `w` occurs in `s` as a whole token.
fn contains_word(s: &Vec<char>, w: &Vec<char>) -> (r: bool)
    ensures
        r == occurs_word(s@, w@),
{
    if w.len() > s.len() {
        proof {
            assert forall|i: int| !word_at(s@, w@, i) by {}
        }
        return false;
    }
    let n = s.len();
    let wl = w.len();
    let last = n - wl;
    let mut i: usize = 0;
    while i <= last
        invariant
            n == s@.len(),
            wl == w@.len(),
            last == s@.len() - w@.len(),
            w@.len() <= s@.len(),
            i <= last + 1,
            forall|j: int| 0 <= j < i ==> !#[trigger] word_at(s@, w@, j),
        decreases last + 1 - i,
    {
        let end = i + wl;
        if matches_at(s, i, w) {
            let before_ok = i == 0 || !word_char(s[i - 1]);
            let after_ok = end == n || !word_char(s[end]);
            if before_ok && after_ok {
                proof {
                    assert(word_at(s@, w@, i as int));
                }
                return true;
            }
        }
        if i == last {
            proof {
                assert forall|j: int| !word_at(s@, w@, j) by {
                    if 0 <= j <= last as int {
                    }
                }
            }
            return false;
        }
        i = i + 1;
    }
    false
}

/// Tells whether `expr` is `evaluable`.
pub fn is_evaluable(expr: &str) -> (r: bool)
    ensures
        r == evaluable(expr@),
{
    let cs = chars_of(expr);
    if cs.len() > MAX_EXPRESSION_LEN {
        return false;
    }
    let mut ascii = true;
    let mut i: usize = 0;
    while i < cs.len()
        invariant
            i <= cs@.len(),
            ascii == (forall|j: int| 0 <= j < i ==> (#[trigger] cs@[j] as u32) < 128),
        decreases cs@.len() - i,
    {
        if (cs[i] as u32) >= 128 {
            ascii = false;
        }
        i = i + 1;
    }
    if !ascii && contains_word(&cs, &chars_of("str::substring")) {
        return false;
    }
    !contains_word(&cs, &chars_of("math::abs")) && !contains_word(&cs, &chars_of("shl"))
        && !contains_word(&cs, &chars_of("shr"))
}

/// Evaluates `expr` with `evalexpr::eval_boolean` (no variables, no
/// randomness feature). Trusted: the result is the named value
/// `evaluated_boolean(expr)`, the error taken by its displayed text; which
/// expressions evaluate, and to what, is left to the evalexpr crate. Only
/// `evaluable` expressions are handed over: evalexpr panics on some others.
#[verifier::external_body]
fn eval_boolean(expr: &str) -> (r: Result<bool, String>)
    requires
        evaluable(expr@),
    ensures
        match r {
            Ok(b) => evaluated_boolean(expr@) == Ok::<bool, Seq<char>>(b),
            Err(e) => evaluated_boolean(expr@) == Err::<bool, Seq<char>>(e@),
        },
{
    match evalexpr::eval_boolean(expr) {
        Ok(b) => Ok(b),
        Err(e) => Err(e.to_string()),
    }
}

/// The placeholder that alert thresholds use for the measured value.
pub open spec fn this_placeholder() -> Seq<char> {
    seq!['$', 't', 'h', 'i', 's']
}

/// A threshold expression with the measured value `value` put in place of
/// every `$this`.
pub open spec fn threshold_with(threshold: Seq<char>, value: Seq<char>) -> Seq<char> {
    replaced(threshold, this_placeholder(), value)
}

/// The error text of a threshold that is not handed to the evaluator.
pub open spec fn unsafe_threshold_text() -> Seq<char> {
    "the threshold is too long or uses a function that cannot be evaluated safely"@
}

/// What a threshold gives for the measured value `value`: the boolean its
/// expression evaluates to, or the error text.
pub open spec fn threshold_outcome(threshold: Seq<char>, value: Seq<char>) -> Result<bool, Seq<char>> {
    let expr = threshold_with(threshold, value);
    if evaluable(expr) {
        evaluated_boolean(expr)
    } else {
        Err(unsafe_threshold_text())
    }
}

/// Evaluates the threshold `threshold` on the measured value `value`:
/// `$this` is replaced by the value and the expression evaluated to a
/// boolean. An expression that is not `evaluable` is refused with
/// `unsafe_threshold_text`.
pub fn evaluate_threshold(threshold: &str, value: &str) -> (r: Result<bool, String>)
    ensures
        match r {
            Ok(b) => threshold_outcome(threshold@, value@) == Ok::<bool, Seq<char>>(b),
            Err(e) => threshold_outcome(threshold@, value@) == Err::<bool, Seq<char>>(e@),
        },
{
    let placeholder = "$this";
    proof {
        reveal_strlit("$this");
        assert(placeholder@ =~= this_placeholder());
    }
    let expr = replace_all(threshold, placeholder, value);
    if !is_evaluable(expr.as_str()) {
        return Err("the threshold is too long or uses a function that cannot be evaluated safely".to_string());
    }
    eval_boolean(expr.as_str())
}

/// The value a threshold is tried with: the measure when the query
/// produced one, else `0`.
pub open spec fn trial_value(has_value: bool, measure: Seq<char>) -> Seq<char> {
    if has_value { measure } else { seq!['0'] }
}

/// The error answered with the text `text` for a refused request.
pub open spec fn is_invalid_request(e: ApiError, text: Seq<char>) -> bool {
    e matches ApiError::InvalidRequestError(Some(m)) && m@ == text
}

/// The first error met when trying the thresholds `warn` then `crit` with
/// the value `v`, `None` when both evaluate to a boolean.
pub open spec fn threshold_error(warn: Seq<char>, crit: Seq<char>, v: Seq<char>) -> Option<Seq<char>> {
    match threshold_outcome(warn, v) {
        Err(e) => Some(e),
        Ok(_) => match threshold_outcome(crit, v) {
            Err(e) => Some(e),
            Ok(_) => None,
        },
    }
}

/// The trial of both thresholds fails exactly when one of them fails,
/// with the warn threshold's error first.
pub proof fn lemma_threshold_error_first_failure(warn: Seq<char>, crit: Seq<char>, v: Seq<char>)
    ensures
        threshold_error(warn, crit, v) is None <==> (threshold_outcome(warn, v) is Ok && threshold_outcome(
            crit,
            v,
        ) is Ok),
        threshold_outcome(warn, v) matches Err(e) ==> threshold_error(warn, crit, v) == Some(e),
        threshold_outcome(warn, v) is Ok ==> (threshold_outcome(crit, v) matches Err(e) ==> threshold_error(
            warn,
            crit,
            v,
        ) == Some(e)),
{
}

/// Tries the thresholds `warn` and `crit` of an alert on the measure its
/// query produced: `has_value` tells whether it produced one, `measure` is
/// its text. Both thresholds must evaluate to a boolean once `$this` is
/// replaced by the measure (or by `0` when there is none); the answer is the
/// measure, or the first error. A threshold that is not `evaluable` once
/// the value is in place is refused with `unsafe_threshold_text`.
pub fn test_thresholds(warn: &str, crit: &str, has_value: bool, measure: String) -> (r: Result<String, ApiError>)
    ensures
        match threshold_error(warn@, crit@, trial_value(has_value, measure@)) {
            None => r == Ok::<String, ApiError>(measure),
            Some(e) => r is Err && is_invalid_request(r->Err_0, e),
        },
{
    let zero = "0";
    proof {
        reveal_strlit("0");
        assert(zero@ =~= seq!['0']);
    }
    let value: &str = if has_value { measure.as_str() } else { zero };
    match evaluate_threshold(warn, value) {
        Err(e) => return Err(ApiError::InvalidRequestError(Some(e))),
        Ok(_) => {},
    }
    match evaluate_threshold(crit, value) {
        Err(e) => return Err(ApiError::InvalidRequestError(Some(e))),
        Ok(_) => {},
    }
    Ok(measure)
}

/// The fields of an alert that decide what its test tried.
#[derive(Debug)]
pub struct AlertFields {
    pub crit: String,
    pub lookup: String,
    pub table: String,
    pub warn: String,
    pub where_clause: Option<String>,
}

/// A change of those fields of an alert: `None` leaves a field as it is.
#[derive(Debug)]
pub struct AlertFieldsUpdate {
    pub crit: Option<String>,
    pub lookup: Option<String>,
    pub table: Option<String>,
    pub warn: Option<String>,
    pub where_clause: Option<Option<String>>,
}

/// The text of an optional text.
pub open spec fn opt_text(t: Option<String>) -> Option<Seq<char>> {
    match t {
        None => None,
        Some(s) => Some(s@),
    }
}

/// The change sets the field to something else than `whole`.
pub open spec fn differs(change: Option<String>, whole: String) -> bool {
    change matches Some(v) && v@ != whole@
}

/// The change sets the optional field to something else than `whole`.
pub open spec fn differs_opt(change: Option<Option<String>>, whole: Option<String>) -> bool {
    change matches Some(v) && opt_text(v) != opt_text(whole)
}

/// The change touches a field that the alert's test depends on, so the
/// whole alert must have been tested again.
pub open spec fn touches_tested_fields(u: AlertFieldsUpdate) -> bool {
    u.crit is Some || u.lookup is Some || u.table is Some || u.warn is Some || u.where_clause is Some
}

/// A change touches the tested fields exactly when it sets one of crit,
/// lookup, table, warn or where_clause; each of them alone is enough.
pub proof fn lemma_touches_tested_any_field(u: AlertFieldsUpdate)
    ensures
        u.crit is Some ==> touches_tested_fields(u),
        u.lookup is Some ==> touches_tested_fields(u),
        u.table is Some ==> touches_tested_fields(u),
        u.warn is Some ==> touches_tested_fields(u),
        u.where_clause is Some ==> touches_tested_fields(u),
        (u.crit is None && u.lookup is None && u.table is None && u.warn is None && u.where_clause is None)
            ==> !touches_tested_fields(u),
{
}

/// The first field, in the order crit, lookup, table, warn, where_clause,
/// that the change sets to something else than the whole alert holds.
pub open spec fn first_mismatch(u: AlertFieldsUpdate, w: AlertFields) -> Option<Seq<char>> {
    if differs(u.crit, w.crit) {
        Some("crit"@)
    } else if differs(u.lookup, w.lookup) {
        Some("lookup"@)
    } else if differs(u.table, w.table) {
        Some("table"@)
    } else if differs(u.warn, w.warn) {
        Some("warn"@)
    } else if differs_opt(u.where_clause, w.where_clause) {
        Some("where_clause"@)
    } else {
        None
    }
}

/// A change that touches no tested field never mismatches the whole
/// alert; one that mismatches it always touches a tested field, so it is
/// checked.
pub proof fn lemma_mismatch_needs_a_touched_field(u: AlertFieldsUpdate, w: AlertFields)
    ensures
        first_mismatch(u, w) is Some ==> touches_tested_fields(u),
{
}

/// A change mismatches the whole alert exactly when one of the fields it
/// sets holds another text than the same field of the whole alert.
pub proof fn lemma_mismatch_is_a_differing_field(u: AlertFieldsUpdate, w: AlertFields)
    ensures
        first_mismatch(u, w) is None <==> ((u.crit matches Some(v) ==> v@ == w.crit@) && (u.lookup matches Some(
            v,
        ) ==> v@ == w.lookup@) && (u.table matches Some(v) ==> v@ == w.table@) && (u.warn matches Some(v)
            ==> v@ == w.warn@) && (u.where_clause matches Some(v) ==> (v is None <==> w.where_clause is None)
            && (v matches Some(a) ==> (w.where_clause matches Some(b) && a@ == b@)))),
{
}

/// The error text for a changed field that does not match the whole alert.
pub open spec fn mismatch_text(name: Seq<char>) -> Seq<char> {
    "the field "@ + name + " does not match the whole alert"@
}

/// Tells whether a change touches the tested fields of an alert.
pub fn touches_tested(update: &AlertFieldsUpdate) -> (r: bool)
    ensures
        r == touches_tested_fields(*update),
{
    update.crit.is_some() || update.lookup.is_some() || update.table.is_some() || update.warn.is_some()
        || update.where_clause.is_some()
}

/// The change sets the field to something else than `whole`.
fn changed(change: &Option<String>, whole: &String) -> (r: bool)
    ensures
        r == differs(*change, *whole),
{
    match change {
        Some(v) => *v != *whole,
        None => false,
    }
}

/// The change sets the optional field to something else than `whole`.
fn changed_opt(change: &Option<Option<String>>, whole: &Option<String>) -> (r: bool)
    ensures
        r == differs_opt(*change, *whole),
{
    match change {
        None => false,
        Some(v) => match (v, whole) {
            (None, None) => false,
            (Some(a), Some(b)) => *a != *b,
            _ => true,
        },
    }
}

/// The error for a changed field `name` that does not match the whole alert.
fn mismatch(name: &str) -> (r: ApiError)
    ensures
        is_invalid_request(r, mismatch_text(name@)),
{
    let mut text = "the field ".to_string();
    text.append(name);
    text.append(" does not match the whole alert");
    ApiError::InvalidRequestError(Some(text))
}

/// An update of an alert's tested fields carries the whole alert as well;
/// every field it changes must equal the same field of the whole alert,
/// which is then checked as tested. The first field that does not match is
/// refused.
pub fn check_changed_fields(update: &AlertFieldsUpdate, whole: &AlertFields) -> (r: Result<(), ApiError>)
    ensures
        first_mismatch(*update, *whole) is None ==> r is Ok,
        first_mismatch(*update, *whole) matches Some(name) ==> (r is Err && is_invalid_request(
            r->Err_0,
            mismatch_text(name),
        )),
{
    if changed(&update.crit, &whole.crit) {
        return Err(mismatch("crit"));
    }
    if changed(&update.lookup, &whole.lookup) {
        return Err(mismatch("lookup"));
    }
    if changed(&update.table, &whole.table) {
        return Err(mismatch("table"));
    }
    if changed(&update.warn, &whole.warn) {
        return Err(mismatch("warn"));
    }
    if changed_opt(&update.where_clause, &whole.where_clause) {
        return Err(mismatch("where_clause"));
    }
    Ok(())
}

/// Stores or updates an alert only if the very same alert passed
/// `POST /api/alerts/test` (its hash is cached): `tested` tells whether it did.
pub fn require_tested(tested: bool) -> (r: Result<(), ApiError>)
    ensures
        tested ==> r is Ok,
        !tested ==> (r is Err
            && is_invalid_request(r->Err_0, "the alert has not been tested so it can't be trusted"@)),
{
    if tested {
        Ok(())
    } else {
        Err(ApiError::InvalidRequestError(Some("the alert has not been tested so it can't be trusted".to_string())))
    }
}

/// Trying an alert is reserved to logged-in users: an authorization error
/// when the session holds no user id.
pub fn require_session(session_user: &Option<String>) -> (r: Result<(), ApiError>)
    ensures
        session_user is Some ==> r is Ok,
        session_user is None ==> r == Err::<(), ApiError>(ApiError::AuthorizationError(None)),
{
    match session_user {
        Some(_) => Ok(()),
        None => Err(ApiError::AuthorizationError(None)),
    }
}

/// The user of the session, for the routes that answer only logged-in
/// users: an authorization error when the session holds no user id or one
/// that is not a UUID.
pub fn session_user_uuid(session_user: Option<String>) -> (r: Result<u128, ApiError>)
    ensures
        (session_user matches Some(s) && parsed_uuid(s@) is Some)
            ==> r == Ok::<u128, ApiError>(parsed_uuid(session_user->0@)->0),
        !(session_user matches Some(s) && parsed_uuid(s@) is Some)
            ==> r == Err::<u128, ApiError>(ApiError::AuthorizationError(None)),
{
    match session_user {
        None => Err(ApiError::AuthorizationError(None)),
        Some(s) => match parse_uuid(s.as_str()) {
            Some(u) => Ok(u),
            None => Err(ApiError::AuthorizationError(None)),
        },
    }
}

} // verus!
