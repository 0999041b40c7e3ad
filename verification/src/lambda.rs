//! Lambdas: cutting a lambda out of the source line it was written on,
//! finding it in the parsed module, and naming the analyzed result.

use vstd::prelude::*;
use vstd::string::*;
use crate::analyzer::spec_convert;
use crate::classes::ClassRegistry;
use crate::convert::convert_ast_to_expression;
use crate::error::AnalysisError;
use crate::expr::Expression;
use crate::pyast::{PyExpr, PyStmt};
use crate::text::{concat_str, nat_digits, push_u64_digits};
use crate::bytecode::{Instruction, analyze_lambda_bytecode, spec_analyze_bytecode};
use crate::types::ExpectedType;

verus! {

broadcast use vstd::string::group_string_axioms;

// ---------------------------------------------------------------------------
// Cutting the lambda out of its source line
// ---------------------------------------------------------------------------

/// The keyword that starts a lambda.
pub open spec fn lambda_keyword() -> Seq<char> {
    seq!['l', 'a', 'm', 'b', 'd', 'a']
}

/// Whether `s` has the keyword at `k`.
pub open spec fn lambda_at(s: Seq<char>, k: int) -> bool {
    0 <= k && k + 6 <= s.len() && s.subrange(k, k + 6) == lambda_keyword()
}

/// The first position at or after `k` where the keyword starts.
pub open spec fn find_lambda(s: Seq<char>, k: int) -> Option<int>
    decreases s.len() - k,
{
    if k < 0 || k + 6 > s.len() {
        None
    } else if lambda_at(s, k) {
        Some(k)
    } else {
        find_lambda(s, k + 1)
    }
}

/// Whether a character is whitespace (Unicode `White_Space`).
pub open spec fn is_white_space(c: char) -> bool {
    ('\u{9}' <= c && c <= '\u{d}') || c == ' ' || c == '\u{85}' || c == '\u{a0}' || c == '\u{1680}'
        || ('\u{2000}' <= c && c <= '\u{200a}') || c == '\u{2028}' || c == '\u{2029}' || c == '\u{202f}'
        || c == '\u{205f}' || c == '\u{3000}'
}

fn is_white_space_exec(c: char) -> (res: bool)
    ensures
        res == is_white_space(c),
{
    ('\u{9}' <= c && c <= '\u{d}') || c == ' ' || c == '\u{85}' || c == '\u{a0}' || c == '\u{1680}'
        || ('\u{2000}' <= c && c <= '\u{200a}') || c == '\u{2028}' || c == '\u{2029}' || c == '\u{202f}'
        || c == '\u{205f}' || c == '\u{3000}'
}

/// Where the lambda that starts `rest` ends: at the first closing bracket
/// that was not opened inside it, or at the first comma outside brackets
/// after its colon, ignoring everything inside string literals; the length
/// when neither comes.
pub open spec fn lambda_end(
    rest: Seq<char>,
    i: int,
    depth: nat,
    in_string: bool,
    quote: char,
    past_colon: bool,
) -> int
    decreases rest.len() - i,
{
    if i < 0 || i >= rest.len() {
        rest.len() as int
    } else {
        let c = rest[i];
        let (now_in, q) = if (c == '"' || c == '\'') && !in_string {
            (true, c)
        } else if c == quote && in_string {
            (false, quote)
        } else {
            (in_string, quote)
        };
        if now_in {
            lambda_end(rest, i + 1, depth, now_in, q, past_colon)
        } else if c == ':' && depth == 0 && !past_colon {
            lambda_end(rest, i + 1, depth, now_in, q, true)
        } else if c == '(' || c == '[' || c == '{' {
            lambda_end(rest, i + 1, depth + 1, now_in, q, past_colon)
        } else if c == ')' || c == ']' || c == '}' {
            if depth == 0 {
                i
            } else {
                lambda_end(rest, i + 1, (depth - 1) as nat, now_in, q, past_colon)
            }
        } else if c == ',' && depth == 0 && past_colon {
            i
        } else {
            lambda_end(rest, i + 1, depth, now_in, q, past_colon)
        }
    }
}

/// Whether `c` opens a bracket.
pub open spec fn opens_bracket(c: char) -> bool {
    c == '(' || c == '[' || c == '{'
}

/// Whether `c` closes a bracket.
pub open spec fn closes_bracket(c: char) -> bool {
    c == ')' || c == ']' || c == '}'
}

/// Reading `s[0..j]` left to right: how many brackets opened outside string
/// literals are still open (negative once more close than opened), whether
/// a string literal is open, and the quote that opened the last one.
pub open spec fn bracket_scan(s: Seq<char>, j: int) -> (int, bool, char)
    decreases j,
{
    if j <= 0 || j > s.len() {
        (0, false, ' ')
    } else {
        let (d, in_string, quote) = bracket_scan(s, j - 1);
        let c = s[j - 1];
        if (c == '"' || c == '\'') && !in_string {
            (d, true, c)
        } else if c == quote && in_string {
            (d, false, quote)
        } else if in_string {
            (d, true, quote)
        } else if opens_bracket(c) {
            (d + 1, false, quote)
        } else if closes_bracket(c) {
            (d - 1, false, quote)
        } else {
            (d, false, quote)
        }
    }
}

/// Whether a `:` outside string literals and brackets comes before `k`.
pub open spec fn colon_before(s: Seq<char>, k: int) -> bool {
    exists|m: int| 0 <= m < k && s[m] == ':' && #[trigger] bracket_scan(s, m).0 == 0 && !bracket_scan(s, m).1
}

/// Whether `s[j]` is a comma outside string literals and brackets, after
/// the lambda's colon.
pub open spec fn separating_comma(s: Seq<char>, j: int) -> bool {
    s[j] == ',' && bracket_scan(s, j).0 == 0 && !bracket_scan(s, j).1 && colon_before(s, j)
}

/// The cut lambda is bracket-balanced: no bracket inside it closes one
/// that was not opened inside it, and it ends at the end of the text or at
/// a closing bracket or comma outside string literals with every bracket it
/// opened closed again. A comma ends it only after its colon (so the
/// commas between its parameters do not), and it ends at the first such
/// comma.
pub proof fn law_lambda_cut_is_balanced(rest: Seq<char>)
    ensures
        ({
            let end = lambda_end(rest, 0, 0, false, ' ', false);
            &&& 0 <= end <= rest.len()
            &&& forall|j: int| 0 < j <= end ==> (#[trigger] bracket_scan(rest, j)).0 >= 0
            &&& end < rest.len() ==> {
                &&& bracket_scan(rest, end).0 == 0
                &&& !bracket_scan(rest, end).1
                &&& closes_bracket(rest[end]) || separating_comma(rest, end)
            }
            &&& forall|j: int| 0 <= j < end ==> !separating_comma(rest, j)
        }),
{
    lemma_lambda_end_balanced(rest, 0, 0, false, ' ', false);
}

proof fn lemma_lambda_end_balanced(rest: Seq<char>, i: int, depth: nat, in_string: bool, quote: char, past_colon: bool)
    requires
        0 <= i <= rest.len(),
        bracket_scan(rest, i) == (depth as int, in_string, quote),
        quote == ' ' || quote == '"' || quote == '\'',
        forall|j: int| 0 < j <= i ==> (#[trigger] bracket_scan(rest, j)).0 >= 0,
        past_colon == colon_before(rest, i),
        forall|j: int| 0 <= j < i ==> !separating_comma(rest, j),
    ensures
        ({
            let end = lambda_end(rest, i, depth, in_string, quote, past_colon);
            &&& i <= end <= rest.len()
            &&& forall|j: int| 0 < j <= end ==> (#[trigger] bracket_scan(rest, j)).0 >= 0
            &&& end < rest.len() ==> {
                &&& bracket_scan(rest, end).0 == 0
                &&& !bracket_scan(rest, end).1
                &&& closes_bracket(rest[end]) || separating_comma(rest, end)
            }
            &&& forall|j: int| 0 <= j < end ==> !separating_comma(rest, j)
        }),
    decreases rest.len() - i,
{
    if i < rest.len() {
        let c = rest[i];
        let next = bracket_scan(rest, i + 1);
        assert(bracket_scan(rest, i + 1) == {
            let (d, ins, q) = bracket_scan(rest, i);
            if (c == '"' || c == '\'') && !ins {
                (d, true, c)
            } else if c == q && ins {
                (d, false, q)
            } else if ins {
                (d, true, q)
            } else if opens_bracket(c) {
                (d + 1, false, q)
            } else if closes_bracket(c) {
                (d - 1, false, q)
            } else {
                (d, false, q)
            }
        });
        assert(colon_before(rest, i + 1) == (colon_before(rest, i) || (c == ':' && depth == 0 && !in_string))) by {
            if colon_before(rest, i + 1) && !colon_before(rest, i) {
                let m = choose|m: int| 0 <= m < i + 1 && rest[m] == ':' && #[trigger] bracket_scan(rest, m).0 == 0
                    && !bracket_scan(rest, m).1;
                assert(m == i);
            }
            if colon_before(rest, i) {
                let m = choose|m: int| 0 <= m < i && rest[m] == ':' && #[trigger] bracket_scan(rest, m).0 == 0
                    && !bracket_scan(rest, m).1;
                assert(0 <= m < i + 1 && rest[m] == ':' && bracket_scan(rest, m).0 == 0 && !bracket_scan(rest, m).1);
            }
            if c == ':' && depth == 0 && !in_string {
                assert(0 <= i < i + 1 && rest[i] == ':' && bracket_scan(rest, i).0 == 0 && !bracket_scan(rest, i).1);
            }
        }
        assert(colon_before(rest, i + 1) == (colon_before(rest, i) || (c == ':' && depth == 0 && !in_string))) by {
            if colon_before(rest, i + 1) && !colon_before(rest, i) {
                let m = choose|m: int| 0 <= m < i + 1 && rest[m] == ':' && #[trigger] bracket_scan(rest, m).0 == 0
                    && !bracket_scan(rest, m).1;
                assert(m == i);
            }
            if colon_before(rest, i) {
                let m = choose|m: int| 0 <= m < i && rest[m] == ':' && #[trigger] bracket_scan(rest, m).0 == 0
                    && !bracket_scan(rest, m).1;
                assert(0 <= m < i + 1 && rest[m] == ':' && bracket_scan(rest, m).0 == 0 && !bracket_scan(rest, m).1);
            }
            if c == ':' && depth == 0 && !in_string {
                assert(0 <= i < i + 1 && rest[i] == ':' && bracket_scan(rest, i).0 == 0 && !bracket_scan(rest, i).1);
            }
        }
        let (now_in, q) = if (c == '"' || c == '\'') && !in_string {
            (true, c)
        } else if c == quote && in_string {
            (false, quote)
        } else {
            (in_string, quote)
        };
        if now_in {
            lemma_lambda_end_balanced(rest, i + 1, depth, now_in, q, past_colon);
        } else if c == ':' && depth == 0 && !past_colon {
            lemma_lambda_end_balanced(rest, i + 1, depth, now_in, q, true);
        } else if c == '(' || c == '[' || c == '{' {
            lemma_lambda_end_balanced(rest, i + 1, depth + 1, now_in, q, past_colon);
        } else if c == ')' || c == ']' || c == '}' {
            if depth != 0 {
                lemma_lambda_end_balanced(rest, i + 1, (depth - 1) as nat, now_in, q, past_colon);
            }
        } else if c == ',' && depth == 0 && past_colon {
        } else {
            lemma_lambda_end_balanced(rest, i + 1, depth, now_in, q, past_colon);
        }
    }
}

/// The first position in `s[b..e]` that is not whitespace (`e` when none).
pub open spec fn trim_start(s: Seq<char>, b: int, e: int) -> int
    decreases e - b,
{
    if b >= e || !is_white_space(s[b]) {
        b
    } else {
        trim_start(s, b + 1, e)
    }
}

/// The end of `s[b..e]` without its trailing whitespace.
pub open spec fn trim_end(s: Seq<char>, b: int, e: int) -> int
    decreases e - b,
{
    if e <= b || !is_white_space(s[e - 1]) {
        e
    } else {
        trim_end(s, b, e - 1)
    }
}

/// The source a lambda is parsed from: the lambda cut out of the line it
/// was written on, trimmed, as the statement `_ = <lambda>`; the line
/// unchanged when it holds no lambda.
pub open spec fn spec_lambda_source(source: Seq<char>) -> Seq<char> {
    match find_lambda(source, 0) {
        None => source,
        Some(k) => {
            let rest = source.subrange(k, source.len() as int);
            let end = lambda_end(rest, 0, 0, false, ' ', false);
            let b = trim_start(rest, 0, end);
            let e = trim_end(rest, b, end);
            seq!['_', ' ', '=', ' '] + rest.subrange(b, e)
        },
    }
}

fn find_lambda_exec(s: &str) -> (res: Option<usize>)
    ensures
        match res {
            Some(k) => find_lambda(s@, 0) == Some(k as int) && k + 6 <= s@.len(),
            None => find_lambda(s@, 0) is None,
        },
{
    let n = s.unicode_len();
    let mut k: usize = 0;
    while k < n && n - k >= 6
        invariant
            n == s@.len(),
            k <= n,
            find_lambda(s@, 0) == find_lambda(s@, k as int),
        decreases n - k,
    {
        if s.get_char(k) == 'l' && s.get_char(k + 1) == 'a' && s.get_char(k + 2) == 'm' && s.get_char(k + 3) == 'b'
            && s.get_char(k + 4) == 'd' && s.get_char(k + 5) == 'a' {
            assert(s@.subrange(k as int, k + 6) =~= lambda_keyword());
            return Some(k);
        }
        assert(!lambda_at(s@, k as int)) by {
            if lambda_at(s@, k as int) {
                assert(s@.subrange(k as int, k + 6)[0] == s@[k as int]);
                assert(s@.subrange(k as int, k + 6)[1] == s@[k + 1]);
                assert(s@.subrange(k as int, k + 6)[2] == s@[k + 2]);
                assert(s@.subrange(k as int, k + 6)[3] == s@[k + 3]);
                assert(s@.subrange(k as int, k + 6)[4] == s@[k + 4]);
                assert(s@.subrange(k as int, k + 6)[5] == s@[k + 5]);
            }
        }
        k = k + 1;
    }
    None
}

fn lambda_end_exec(rest: &str) -> (res: usize)
    ensures
        res as int == lambda_end(rest@, 0, 0, false, ' ', false),
        res <= rest@.len(),
{
    let n = rest.unicode_len();
    let mut depth: usize = 0;
    let mut in_string = false;
    let mut quote = ' ';
    let mut past_colon = false;
    let mut i: usize = 0;
    while i < n
        invariant
            n == rest@.len(),
            i <= n,
            depth <= i,
            lambda_end(rest@, 0, 0, false, ' ', false) == lambda_end(rest@, i as int, depth as nat, in_string, quote, past_colon),
        decreases n - i,
    {
        let c = rest.get_char(i);
        if (c == '"' || c == '\'') && !in_string {
            in_string = true;
            quote = c;
        } else if c == quote && in_string {
            in_string = false;
        }
        if !in_string {
            if c == ':' && depth == 0 && !past_colon {
                past_colon = true;
            } else if c == '(' || c == '[' || c == '{' {
                depth = depth + 1;
            } else if c == ')' || c == ']' || c == '}' {
                if depth == 0 {
                    return i;
                }
                depth = depth - 1;
            } else if c == ',' && depth == 0 && past_colon {
                return i;
            }
        }
        i = i + 1;
    }
    n
}

/// Cut the lambda out of the source line it was written on, as the
/// statement `_ = <lambda>` that can be parsed on its own.
///
/// `".filter(lambda x: x.field)"` gives `"_ = lambda x: x.field"`; a line
/// without `lambda` is returned unchanged.
pub fn extract_lambda_from_source(source: &str) -> (res: String)
    ensures
        res@ == spec_lambda_source(source@),
{
    match find_lambda_exec(source) {
        None => String::from_str(source),
        Some(k) => {
            let n = source.unicode_len();
            let rest = source.substring_char(k, n);
            let end = lambda_end_exec(rest);
            let mut b: usize = 0;
            while b < end && is_white_space_exec(rest.get_char(b))
                invariant
                    end <= rest@.len(),
                    b <= end,
                    trim_start(rest@, 0, end as int) == trim_start(rest@, b as int, end as int),
                decreases end - b,
            {
                b = b + 1;
            }
            let mut e: usize = end;
            while e > b && is_white_space_exec(rest.get_char(e - 1))
                invariant
                    end <= rest@.len(),
                    b <= e <= end,
                    trim_end(rest@, b as int, end as int) == trim_end(rest@, b as int, e as int),
                decreases e,
            {
                e = e - 1;
            }
            proof {
                reveal_strlit("_ = ");
            }
            concat_str("_ = ", rest.substring_char(b, e))
        },
    }
}

// ---------------------------------------------------------------------------
// Finding the lambda in the parsed module
// ---------------------------------------------------------------------------

/// The positional arguments of a call node.
pub open spec fn call_args(e: PyExpr) -> Seq<PyExpr> {
    match e {
        PyExpr::Call { args, .. } => args@,
        _ => Seq::empty(),
    }
}

/// The conversion of the first lambda found in an expression: a lambda
/// itself (its body, with its own parameter names), or one among the
/// positional arguments of a call.
pub open spec fn spec_lambda_in_expr(reg: ClassRegistry, e: PyExpr, hint: String, fuel: u64) -> Result<
    Option<Expression>,
    AnalysisError,
>
    decreases e, 1int, 0int,
{
    match e {
        PyExpr::Lambda { args, body } => spec_convert(reg, *body, args@, hint, ExpectedType::Any, fuel),
        PyExpr::Call { .. } => spec_lambda_in_call_args(reg, e, 0, hint, fuel),
        _ => Ok(None),
    }
}

/// The first lambda among the positional arguments `i..` of a call.
pub open spec fn spec_lambda_in_call_args(reg: ClassRegistry, e: PyExpr, i: int, hint: String, fuel: u64) -> Result<
    Option<Expression>,
    AnalysisError,
>
    decreases e, 0int, call_args(e).len() - i,
{
    if i < 0 || i >= call_args(e).len() {
        Ok(None)
    } else {
        match e {
            PyExpr::Call { args, .. } => match spec_lambda_in_expr(reg, args@[i], hint, fuel) {
                Err(err) => Err(err),
                Ok(Some(x)) => Ok(Some(x)),
                Ok(None) => spec_lambda_in_call_args(reg, e, i + 1, hint, fuel),
            },
            _ => Ok(None),
        }
    }
}

/// The first lambda of a module's statements `stmts[i..]`: expression
/// statements and assignments are searched.
pub open spec fn spec_lambda_in_module(reg: ClassRegistry, stmts: Seq<PyStmt>, i: int, hint: String, fuel: u64) -> Result<
    Option<Expression>,
    AnalysisError,
>
    decreases stmts.len() - i,
{
    if i < 0 || i >= stmts.len() {
        Ok(None)
    } else {
        let found = match stmts[i] {
            PyStmt::Expr { value } => spec_lambda_in_expr(reg, value, hint, fuel),
            PyStmt::Assign { value, .. } => spec_lambda_in_expr(reg, value, hint, fuel),
            _ => Ok(None),
        };
        match found {
            Err(err) => Err(err),
            Ok(Some(x)) => Ok(Some(x)),
            Ok(None) => spec_lambda_in_module(reg, stmts, i + 1, hint, fuel),
        }
    }
}

fn lambda_in_expr(reg: &ClassRegistry, e: &PyExpr, hint: &String, fuel: u64) -> (res: Result<Option<Expression>, AnalysisError>)
    ensures
        res == spec_lambda_in_expr(*reg, *e, *hint, fuel),
    decreases e, 1int, 0int,
{
    match e {
        PyExpr::Lambda { args, body } => convert_ast_to_expression(reg, &**body, args, hint, ExpectedType::Any, fuel),
        PyExpr::Call { .. } => lambda_in_call_args(reg, e, hint, fuel),
        _ => Ok(None),
    }
}

fn lambda_in_call_args(reg: &ClassRegistry, e: &PyExpr, hint: &String, fuel: u64) -> (res: Result<Option<Expression>, AnalysisError>)
    ensures
        res == spec_lambda_in_call_args(*reg, *e, 0, *hint, fuel),
    decreases e, 0int, call_args(*e).len(),
{
    match e {
        PyExpr::Call { func, args, keywords } => {
            let n = args.len();
            let mut i: usize = 0;
            while i < n
                invariant
                    n == args@.len(),
                    i <= n,
                    call_args(*e) == args@,
                    *e == (PyExpr::Call { func: *func, args: *args, keywords: *keywords }),
                    spec_lambda_in_call_args(*reg, *e, 0, *hint, fuel) == spec_lambda_in_call_args(*reg, *e, i as int, *hint, fuel),
                decreases n - i,
            {
                assert(decreases_to!(*e => args));
                assert(decreases_to!(args => args@[i as int]));
                match lambda_in_expr(reg, &args[i], hint, fuel) {
                    Err(err) => {
                        return Err(err);
                    },
                    Ok(Some(x)) => {
                        return Ok(Some(x));
                    },
                    Ok(None) => {},
                }
                i = i + 1;
            }
            Ok(None)
        },
        _ => Ok(None),
    }
}

/// Find the lambda in a parsed module and convert its body.
pub fn extract_lambda_expression(reg: &ClassRegistry, module: &Vec<PyStmt>, hint: &String, fuel: u64) -> (res: Result<
    Option<Expression>,
    AnalysisError,
>)
    ensures
        res == spec_lambda_in_module(*reg, module@, 0, *hint, fuel),
{
    let n = module.len();
    let mut i: usize = 0;
    while i < n
        invariant
            n == module@.len(),
            i <= n,
            spec_lambda_in_module(*reg, module@, 0, *hint, fuel) == spec_lambda_in_module(*reg, module@, i as int, *hint, fuel),
        decreases n - i,
    {
        let found = match &module[i] {
            PyStmt::Expr { value } => lambda_in_expr(reg, value, hint, fuel),
            PyStmt::Assign { value, .. } => lambda_in_expr(reg, value, hint, fuel),
            _ => Ok(None),
        };
        match found {
            Err(err) => {
                return Err(err);
            },
            Ok(Some(x)) => {
                return Ok(Some(x));
            },
            Ok(None) => {},
        }
        i = i + 1;
    }
    Ok(None)
}

/// The expression of the lambda in a parsed module; refused when the
/// module holds no lambda the analyzer can convert.
pub fn analyze_parsed_lambda(reg: &ClassRegistry, module: &Vec<PyStmt>, hint: &String, fuel: u64) -> (res: Result<
    Expression,
    AnalysisError,
>)
    ensures
        res == (match spec_lambda_in_module(*reg, module@, 0, *hint, fuel) {
            Err(e) => Err(e),
            Ok(None) => Err(AnalysisError::NoLambdaFound),
            Ok(Some(x)) => Ok(x),
        }),
{
    match extract_lambda_expression(reg, module, hint, fuel) {
        Err(e) => Err(e),
        Ok(None) => Err(AnalysisError::NoLambdaFound),
        Ok(Some(x)) => Ok(x),
    }
}

} // verus!

verus! {

// ---------------------------------------------------------------------------
// Lambdas from source or bytecode
// ---------------------------------------------------------------------------

/// The code of a lambda as the analyzer receives it.
#[derive(Debug)]
pub enum LambdaCode {
    /// The module parsed from the lambda cut out of its source line.
    Source { module: Vec<PyStmt> },
    /// The disassembled instructions and local names, for when the source
    /// is not available.
    Bytecode { instructions: Vec<Instruction>, varnames: Vec<String> },
}

/// The expression of a lambda: from its source when available, else from
/// its bytecode.
pub open spec fn spec_analyze_lambda(reg: ClassRegistry, code: LambdaCode, hint: String, fuel: u64) -> Result<
    Expression,
    AnalysisError,
> {
    match code {
        LambdaCode::Source { module } => match spec_lambda_in_module(reg, module@, 0, hint, fuel) {
            Err(e) => Err(e),
            Ok(None) => Err(AnalysisError::NoLambdaFound),
            Ok(Some(x)) => Ok(x),
        },
        LambdaCode::Bytecode { instructions, varnames } => spec_analyze_bytecode(
            reg,
            instructions@,
            varnames@,
            hint,
            fuel,
        ),
    }
}

/// Analyze a lambda and convert it to an expression tree.
pub fn analyze_lambda(reg: &ClassRegistry, code: &LambdaCode, class_hint: &String, fuel: u64) -> (res: Result<
    Expression,
    AnalysisError,
>)
    ensures
        res == spec_analyze_lambda(*reg, *code, *class_hint, fuel),
{
    match code {
        LambdaCode::Source { module } => analyze_parsed_lambda(reg, module, class_hint, fuel),
        LambdaCode::Bytecode { instructions, varnames } => analyze_lambda_bytecode(
            reg,
            instructions,
            varnames,
            class_hint,
            fuel,
        ),
    }
}

// ---------------------------------------------------------------------------
// Names
// ---------------------------------------------------------------------------

/// The name given to the lambda numbered `n`: `<prefix>_<n>`.
pub open spec fn lambda_name(prefix: Seq<char>, n: u64) -> Seq<char> {
    prefix + seq!['_'] + nat_digits(n as nat)
}

/// A source of unique lambda names: a counter, advanced by each name.
pub struct LambdaNamer {
    next: u64,
}

impl LambdaNamer {
    /// The number the next name will carry.
    pub closed spec fn counter(&self) -> u64 {
        self.next
    }

    /// A namer that starts at 0.
    pub fn new() -> (res: Self)
        ensures
            res.counter() == 0,
    {
        LambdaNamer { next: 0 }
    }

    /// A unique name for a lambda, like `"equal_map_0"`, `"equal_map_1"`, ...
    /// The counter wraps around after `u64::MAX`.
    pub fn generate_lambda_name(&mut self, prefix: &str) -> (name: String)
        ensures
            name@ == lambda_name(prefix@, old(self).counter()),
            final(self).counter() == vstd::wrapping::u64_specs::wrapping_add(old(self).counter(), 1),
    {
        proof {
            reveal_strlit("_");
        }
        let mut name = concat_str(prefix, "_");
        push_u64_digits(&mut name, self.next);
        self.next = self.next.wrapping_add(1);
        assert(name@ =~= lambda_name(prefix@, old(self).counter()));
        name
    }
}

/// A reference to a generated function by its name.
#[derive(Debug, Clone)]
pub struct WasmFunction {
    pub name: String,
}

impl WasmFunction {
    pub fn new(name: &str) -> (res: Self)
        ensures
            res.name@ == name@,
    {
        WasmFunction { name: String::from_str(name) }
    }
}

/// An analyzed lambda: its generated name, its arity, the class its first
/// parameter is an instance of, and its expression.
#[derive(Debug, Clone)]
pub struct LambdaInfo {
    pub name: String,
    pub param_count: usize,
    pub class_hint: Option<String>,
    pub expression: Expression,
}

impl LambdaInfo {
    /// Name and analyze a lambda. The name is taken from `namer` first, so
    /// the counter advances even when the analysis is refused.
    pub fn new(
        namer: &mut LambdaNamer,
        reg: &ClassRegistry,
        code: &LambdaCode,
        prefix: &str,
        class_hint: &String,
        param_count: usize,
        fuel: u64,
    ) -> (res: Result<LambdaInfo, AnalysisError>)
        ensures
            final(namer).counter() == vstd::wrapping::u64_specs::wrapping_add(old(namer).counter(), 1),
            match res {
                Ok(info) => {
                    &&& info.name@ == lambda_name(prefix@, old(namer).counter())
                    &&& info.param_count == param_count
                    &&& info.class_hint == Some(*class_hint)
                    &&& spec_analyze_lambda(*reg, *code, *class_hint, fuel) == Ok::<Expression, AnalysisError>(info.expression)
                },
                Err(e) => spec_analyze_lambda(*reg, *code, *class_hint, fuel) == Err::<Expression, AnalysisError>(e),
            },
    {
        let name = namer.generate_lambda_name(prefix);
        match analyze_lambda(reg, code, class_hint, fuel) {
            Err(e) => Err(e),
            Ok(expression) => Ok(LambdaInfo { name, param_count, class_hint: Some(class_hint.clone()), expression }),
        }
    }

    /// The function this lambda is compiled to.
    pub fn to_wasm_function(&self) -> (res: WasmFunction)
        ensures
            res.name == self.name,
    {
        WasmFunction { name: self.name.clone() }
    }

    /// The analyzed expression.
    pub fn get_expression(&self) -> (res: &Expression)
        ensures
            *res == self.expression,
    {
        &self.expression
    }
}

// ---------------------------------------------------------------------------
// Laws
// ---------------------------------------------------------------------------

/// Every decimal rendering has at least one digit.
proof fn lemma_digits_nonempty(n: nat)
    ensures
        nat_digits(n).len() >= 1,
    decreases n,
{
    if n >= 10 {
        lemma_digits_nonempty(n / 10);
    }
}

/// Distinct digits have distinct characters.
proof fn lemma_digit_char_injective(x: nat, y: nat)
    requires
        x < 10,
        y < 10,
        crate::text::digit_char(x) == crate::text::digit_char(y),
    ensures
        x == y,
{
}

/// Distinct numbers have distinct decimal renderings.
proof fn lemma_digits_injective(a: nat, b: nat)
    requires
        nat_digits(a) == nat_digits(b),
    ensures
        a == b,
    decreases a,
{
    if a < 10 && b < 10 {
        assert(nat_digits(a) == seq![crate::text::digit_char(a)]);
        assert(nat_digits(b) == seq![crate::text::digit_char(b)]);
        assert(nat_digits(a)[0] == crate::text::digit_char(a));
        assert(nat_digits(b)[0] == crate::text::digit_char(b));
        lemma_digit_char_injective(a, b);
    } else if a >= 10 && b >= 10 {
        let da = nat_digits(a / 10);
        let db = nat_digits(b / 10);
        assert(nat_digits(a) == da.push(crate::text::digit_char(a % 10)));
        assert(nat_digits(b) == db.push(crate::text::digit_char(b % 10)));
        assert(da.len() == db.len());
        assert(da =~= nat_digits(a).drop_last());
        assert(db =~= nat_digits(b).drop_last());
        assert(nat_digits(a).last() == crate::text::digit_char(a % 10));
        assert(nat_digits(b).last() == crate::text::digit_char(b % 10));
        lemma_digits_injective(a / 10, b / 10);
        lemma_digit_char_injective(a % 10, b % 10);
    } else if a < 10 {
        lemma_digits_nonempty(b / 10);
        assert(nat_digits(b).len() == nat_digits(b / 10).len() + 1);
    } else {
        lemma_digits_nonempty(a / 10);
        assert(nat_digits(a).len() == nat_digits(a / 10).len() + 1);
    }
}

/// Lambdas numbered differently get different names, whatever the prefix:
/// so the names a namer hands out do not repeat until its counter wraps.
pub proof fn law_lambda_names_unique(prefix: Seq<char>, a: u64, b: u64)
    requires
        a != b,
    ensures
        lambda_name(prefix, a) != lambda_name(prefix, b),
{
    if lambda_name(prefix, a) == lambda_name(prefix, b) {
        let k: int = prefix.len() as int + 1;
        let la = lambda_name(prefix, a);
        let lb = lambda_name(prefix, b);
        assert(la.subrange(k, la.len() as int) =~= nat_digits(a as nat));
        assert(lb.subrange(k, lb.len() as int) =~= nat_digits(b as nat));
        lemma_digits_injective(a as nat, b as nat);
    }
}

/// Two names taken one after the other from the same namer differ.
pub proof fn law_consecutive_names_differ(prefix: Seq<char>, n: u64)
    ensures
        lambda_name(prefix, n) != lambda_name(prefix, vstd::wrapping::u64_specs::wrapping_add(n, 1)),
{
    assert(vstd::wrapping::u64_specs::wrapping_add(n, 1) != n);
    law_lambda_names_unique(prefix, n, vstd::wrapping::u64_specs::wrapping_add(n, 1));
}

} // verus!
