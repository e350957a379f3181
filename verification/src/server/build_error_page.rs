//! Error pages for initial loads: the shell with the rendered error page
//! interpolated, and the data the browser needs to hydrate it.
use crate::server::html_shell::{escape_page_data, escape_page_data_spec};
use crate::text::{push_char, replace_all, replace_str};
use vstd::prelude::*;

verus! {

/// The lowercase hexadecimal digit for `d` (below sixteen).
pub open spec fn hex_digit(d: nat) -> char {
    if d < 10 {
        digit(d)
    } else if d == 10 { 'a' } else if d == 11 { 'b' } else if d == 12 { 'c' } else if d == 13 { 'd' } else if d
        == 14 { 'e' } else { 'f' }
}

/// How a character stands inside a JSON string literal: a quote, a
/// backslash and the control characters are escaped (those with a short
/// escape by it, the others as `\u00` and two hexadecimal digits); every
/// other character stands for itself.
pub open spec fn json_escaped_char(c: char) -> Seq<char> {
    let n = c as u32;
    if c == '"' {
        seq!['\\', '"']
    } else if c == '\\' {
        seq!['\\', '\\']
    } else if n == 8 {
        seq!['\\', 'b']
    } else if n == 9 {
        seq!['\\', 't']
    } else if n == 10 {
        seq!['\\', 'n']
    } else if n == 12 {
        seq!['\\', 'f']
    } else if n == 13 {
        seq!['\\', 'r']
    } else if n < 32 {
        seq!['\\', 'u', '0', '0', hex_digit((n / 16) as nat), hex_digit((n % 16) as nat)]
    } else {
        seq![c]
    }
}

/// The characters of `s`, each as it stands inside a JSON string literal.
pub open spec fn json_escaped(s: Seq<char>) -> Seq<char>
    decreases s.len(),
{
    if s.len() == 0 {
        Seq::empty()
    } else {
        json_escaped(s.drop_last()) + json_escaped_char(s.last())
    }
}

/// What `serde_json::to_string` gives for a string: its JSON literal, the
/// escaped characters between double quotes.
pub open spec fn json_string(s: Seq<char>) -> Seq<char> {
    seq!['"'] + json_escaped(s) + seq!['"']
}

/// The JSON literal of a string (`serde_json::to_string`, which cannot fail
/// on a string). Trusted: the result is `json_string` of the input, as
/// serde_json's escape table and compact formatter write it.
#[verifier::external_body]
fn json_quote(s: &str) -> (r: String)
    ensures
        r@ == json_string(s@),
{
    serde_json::to_string(s).unwrap()
}

/// The decimal digit for `d` (below ten).
pub open spec fn digit(d: nat) -> char {
    if d == 0 { '0' } else if d == 1 { '1' } else if d == 2 { '2' } else if d == 3 { '3' } else if d == 4 {
        '4'
    } else if d == 5 { '5' } else if d == 6 { '6' } else if d == 7 { '7' } else if d == 8 { '8' } else { '9' }
}

/// The decimal notation of `n`.
pub open spec fn decimal(n: nat) -> Seq<char>
    decreases n,
{
    if n < 10 {
        seq![digit(n)]
    } else {
        decimal(n / 10).push(digit(n % 10))
    }
}

/// Writes the decimal notation of `n` after `s`.
fn push_decimal(s: &mut String, n: u16)
    ensures
        final(s)@ == old(s)@ + decimal(n as nat),
    decreases n,
{
    if n >= 10 {
        push_decimal(s, n / 10);
    }
    let d = n % 10;
    let c = if d == 0 { '0' } else if d == 1 { '1' } else if d == 2 { '2' } else if d == 3 { '3' } else if d == 4 {
        '4'
    } else if d == 5 { '5' } else if d == 6 { '6' } else if d == 7 { '7' } else if d == 8 { '8' } else { '9' };
    push_char(s, c);
}

/// The JSON of the data the browser hydrates an error page from: the URL,
/// the status code and the error.
pub open spec fn error_page_data_json(url: Seq<char>, status: nat, err: Seq<char>) -> Seq<char> {
    "{\"url\":"@ + json_string(url) + ",\"status\":"@ + decimal(status) + ",\"err\":"@ + json_string(err) + "}"@
}

/// The error page for `url`: the shell `html` with a script declaring the
/// page data as an error before `</head>`, and the rendered error page
/// (`error_html`) interpolated at the start of the root element (whose `id`
/// may be quoted either way).
pub open spec fn error_page_spec(
    url: Seq<char>,
    status: nat,
    err: Seq<char>,
    error_html: Seq<char>,
    html: Seq<char>,
    root_id: Seq<char>,
) -> Seq<char> {
    let state_var = "<script>window.__PERSEUS_INITIAL_STATE = `error-"@ + escape_page_data_spec(
        error_page_data_json(url, status, err),
    ) + "`;</script>"@;
    let declared = replace_all(html, "</head>"@, state_var + "\n</head>"@);
    let double = "<div id=\""@ + root_id + "\">"@;
    let single = "<div id='"@ + root_id + "'>"@;
    let replacement = double + "<div id=\"__perseus_content_initial\" class=\"__perseus_content\">"@ + error_html
        + "</div>"@;
    replace_all(replace_all(declared, double, replacement), single, replacement)
}

/// Prepares an HTML error page for the browser, with injected markers for
/// hydration, from the shell `html` and the rendered error page.
pub fn build_error_page(
    url: &str,
    status: u16,
    err: &str,
    error_html: &str,
    html: &str,
    root_id: &str,
) -> (r: String)
    ensures
        r@ == error_page_spec(url@, status as nat, err@, error_html@, html@, root_id@),
{
    let mut data = "{\"url\":".to_owned();
    data.append(json_quote(url).as_str());
    data.append(",\"status\":");
    push_decimal(&mut data, status);
    data.append(",\"err\":");
    data.append(json_quote(err).as_str());
    data.append("}");
    let mut state_var = "<script>window.__PERSEUS_INITIAL_STATE = `error-".to_owned();
    state_var.append(escape_page_data(data.as_str()).as_str());
    state_var.append("`;</script>");
    let mut head_end = state_var;
    head_end.append("\n</head>");
    proof {
        reveal_strlit("</head>");
        reveal_strlit("<div id=\"");
        reveal_strlit("<div id='");
    }
    let declared = replace_str(html, "</head>", head_end.as_str());
    let mut double = "<div id=\"".to_owned();
    double.append(root_id);
    double.append("\">");
    let mut single = "<div id='".to_owned();
    single.append(root_id);
    single.append("'>");
    let mut replacement = double.clone();
    replacement.append("<div id=\"__perseus_content_initial\" class=\"__perseus_content\">");
    replacement.append(error_html);
    replacement.append("</div>");
    let once = replace_str(declared.as_str(), double.as_str(), replacement.as_str());
    replace_str(once.as_str(), single.as_str(), replacement.as_str())
}

} // verus!
