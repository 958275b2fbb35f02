//! The renderer: turns the frozen button table into one self-contained
//! page. Its output is pinned down character by character, so the page
//! body is a pure function of the registry: serving it verbatim to any
//! number of concurrent readers is sound, and rendering twice from the
//! same table yields identical bytes. Prompt texts are escaped before
//! they are embedded into the page's script, and the escaping is proved
//! to keep the script well formed and to preserve the prompt text.

use crate::button::{Button, ButtonView};
use vstd::prelude::*;
use vstd::string::StrSliceExecFns;
use vstd::string::StringExecFns;

verus! {

/// Relies on `String::push`: appends the given character to the end of
/// the string.
pub assume_specification[ String::push ](s: &mut String, c: char)
    ensures
        final(s)@ == old(s)@ + seq![c],
;

/// The character for one decimal digit.
pub open spec fn dec_digit(n: nat) -> char
    recommends
        n < 10,
{
    if n == 0 {
        '0'
    } else if n == 1 {
        '1'
    } else if n == 2 {
        '2'
    } else if n == 3 {
        '3'
    } else if n == 4 {
        '4'
    } else if n == 5 {
        '5'
    } else if n == 6 {
        '6'
    } else if n == 7 {
        '7'
    } else if n == 8 {
        '8'
    } else {
        '9'
    }
}

/// The decimal rendering of `n`, most significant digit first, without
/// leading zeros (a single `'0'` for zero).
pub open spec fn dec_str(n: nat) -> Seq<char>
    decreases n,
{
    if n < 10 {
        seq![dec_digit(n)]
    } else {
        dec_str(n / 10) + seq![dec_digit(n % 10)]
    }
}

fn digit_char(d: u8) -> (c: char)
    requires
        d < 10,
    ensures
        c == dec_digit(d as nat),
{
    match d {
        0 => '0',
        1 => '1',
        2 => '2',
        3 => '3',
        4 => '4',
        5 => '5',
        6 => '6',
        7 => '7',
        8 => '8',
        _ => '9',
    }
}

fn push_decimal(out: &mut String, n: usize)
    ensures
        final(out)@ == old(out)@ + dec_str(n as nat),
    decreases n,
{
    if n >= 10 {
        push_decimal(out, n / 10);
        out.push(digit_char((n % 10) as u8));
        proof {
            assert(old(out)@ + dec_str((n / 10) as nat) + seq![dec_digit((n % 10) as nat)] =~= old(
                out,
            )@ + dec_str(n as nat));
        }
    } else {
        out.push(digit_char(n as u8));
    }
}

/// What one character of a prompt becomes inside the page's script: the
/// backslash, quote, double quote, newline, carriage return and tab
/// characters are written as two-character escapes, every other
/// character stands as itself.
pub open spec fn escape_js_char(c: char) -> Seq<char> {
    if c == '\\' {
        "\\\\"@
    } else if c == '\'' {
        "\\'"@
    } else if c == '"' {
        "\\\""@
    } else if c == '\n' {
        "\\n"@
    } else if c == '\r' {
        "\\r"@
    } else if c == '\t' {
        "\\t"@
    } else {
        seq![c]
    }
}

/// The escaped form of a whole prompt text.
pub open spec fn escape_js(s: Seq<char>) -> Seq<char>
    decreases s.len(),
{
    if s.len() == 0 {
        Seq::empty()
    } else {
        escape_js(s.drop_last()) + escape_js_char(s.last())
    }
}

/// Escapes `input` so that it can stand inside a quoted string literal
/// of the page's script.
pub fn sanitize_for_js_string(input: &str) -> (r: String)
    ensures
        r@ == escape_js(input@),
{
    let len = input.unicode_len();
    let mut out = String::new();
    let mut i: usize = 0;
    while i < len
        invariant
            i <= len,
            len == input@.len(),
            out@ == escape_js(input@.take(i as int)),
        decreases len - i,
    {
        let c = input.get_char(i);
        if c == '\\' {
            out.append("\\\\");
        } else if c == '\'' {
            out.append("\\'");
        } else if c == '"' {
            out.append("\\\"");
        } else if c == '\n' {
            out.append("\\n");
        } else if c == '\r' {
            out.append("\\r");
        } else if c == '\t' {
            out.append("\\t");
        } else {
            out.push(c);
        }
        proof {
            let pre = input@.take(i as int + 1);
            assert(pre.drop_last() =~= input@.take(i as int));
            assert(pre.last() == input@[i as int]);
        }
        i += 1;
    }
    proof {
        assert(input@.take(len as int) =~= input@);
    }
    out
}

/// One prompt as it stands in the page's script: escaped and wrapped in
/// single quotes.
pub open spec fn quoted_prompt(p: Seq<char>) -> Seq<char> {
    "'"@ + escape_js(p) + "'"@
}

/// The quoted prompts joined with commas.
pub open spec fn questions_list(ps: Seq<Seq<char>>) -> Seq<char>
    decreases ps.len(),
{
    if ps.len() == 0 {
        Seq::empty()
    } else if ps.len() == 1 {
        quoted_prompt(ps[0])
    } else {
        questions_list(ps.drop_last()) + ","@ + quoted_prompt(ps.last())
    }
}

/// The script array holding a button's prompts.
pub open spec fn questions_array_text(ps: Seq<Seq<char>>) -> Seq<char> {
    "["@ + questions_list(ps) + "]"@
}

/// Renders the script array of a button's prompts.
pub fn create_questions_array(extra_prompts: &Vec<String>) -> (r: String)
    ensures
        r@ == questions_array_text(extra_prompts.deep_view()),
{
    let ghost ps = extra_prompts.deep_view();
    let mut out = "[".to_owned();
    let mut j: usize = 0;
    while j < extra_prompts.len()
        invariant
            j <= extra_prompts.len(),
            ps == extra_prompts.deep_view(),
            out@ == "["@ + questions_list(ps.take(j as int)),
        decreases extra_prompts.len() - j,
    {
        if j > 0 {
            out.append(",");
        }
        out.append("'");
        let q = sanitize_for_js_string(extra_prompts[j].as_str());
        out.append(q.as_str());
        out.append("'");
        proof {
            let pre = ps.take(j as int + 1);
            assert(pre.drop_last() =~= ps.take(j as int));
            assert(pre.last() == ps[j as int]);
            assert(out@ =~= "["@ + questions_list(pre));
        }
        j += 1;
    }
    out.append("]");
    proof {
        assert(ps.take(extra_prompts@.len() as int) =~= ps);
        assert(out@ =~= questions_array_text(ps));
    }
    out
}

/// One button's control in the page. The button's name is embedded as
/// the element's text; its prompts, when its handler shape takes
/// answers, are embedded as a script array of quoted, escaped texts, and
/// otherwise the control passes `null`.
pub open spec fn button_html(b: ButtonView, id: nat) -> Seq<char> {
    if b.kind.takes_answers() {
        "<button onclick=\"showMessage("@ + dec_str(id) + ", "@ + questions_array_text(b.prompts)
            + ")\">"@ + b.name + "</button>"@
    } else {
        "<button onclick=\"showMessage("@ + dec_str(id) + ", null)\">"@ + b.name + "</button>"@
    }
}

/// Renders the control for `button`, identified by its position `id`.
pub fn create_button_html(button: &Button, id: usize) -> (r: String)
    ensures
        r@ == button_html(button@, id as nat),
{
    let mut out = "<button onclick=\"showMessage(".to_owned();
    push_decimal(&mut out, id);
    if button.kind.takes_answers() {
        out.append(", ");
        let qa = create_questions_array(&button.prompts);
        out.append(qa.as_str());
        out.append(")\">");
    } else {
        out.append(", null)\">");
    }
    out.append(button.name.as_str());
    out.append("</button>");
    out
}

/// The controls of all buttons in table order, each identified by its
/// position.
pub open spec fn buttons_html(bs: Seq<ButtonView>) -> Seq<char>
    decreases bs.len(),
{
    if bs.len() == 0 {
        Seq::empty()
    } else {
        buttons_html(bs.drop_last()) + button_html(bs.last(), (bs.len() - 1) as nat)
    }
}

/// Renders the controls of all buttons in table order.
pub fn create_buttons_html(buttons: &Vec<Button>) -> (r: String)
    ensures
        r@ == buttons_html(buttons.deep_view()),
{
    let ghost bs = buttons.deep_view();
    let mut out = String::new();
    let mut k: usize = 0;
    while k < buttons.len()
        invariant
            k <= buttons.len(),
            bs == buttons.deep_view(),
            out@ == buttons_html(bs.take(k as int)),
        decreases buttons.len() - k,
    {
        let bh = create_button_html(&buttons[k], k);
        out.append(bh.as_str());
        proof {
            let pre = bs.take(k as int + 1);
            assert(pre.drop_last() =~= bs.take(k as int));
            assert(pre.last() == bs[k as int]);
        }
        k += 1;
    }
    proof {
        assert(bs.take(buttons@.len() as int) =~= bs);
    }
    out
}

/// Everything of the page that stands before the button controls.
pub open spec fn page_prefix() -> Seq<char> {
    r#"<!DOCTYPE html>
<html lang="en">
    <head>
        <title>BTNify</title>
        <meta charset="utf-8">
    </head>
    <body>
        "#@
}

/// Everything of the page that stands after the button controls: the
/// script that collects one answer per prompt (keeping a cancelled
/// prompt as null), posts `{id, answers}` to `/`, and shows the
/// returned message.
pub open spec fn page_suffix() -> Seq<char> {
    r#"

        <script>
            async function showMessage(id, extra_questions = null) {
                let answers = [];
                if (extra_questions !== null) {
                    for (const question of extra_questions) {
                        let response = prompt(question);
                        answers.push(response);
                    }
                }
                const data = await postData("/", { id, answers });
                alert(data.message);
            }

            async function postData(url = "/", data = {}) {
                const response = await fetch(url, {
                    method: "POST",
                    headers: {
                        "Content-Type": "application/json"
                    },
                    body: JSON.stringify(data)
                });
                return response.json();
            }
        </script>
    </body>
</html>"#@
}

/// The whole page: a pure function of the button table.
pub open spec fn page_html(bs: Seq<ButtonView>) -> Seq<char> {
    page_prefix() + buttons_html(bs) + page_suffix()
}

/// Renders the page for the given button table.
pub fn create_page_html(buttons: &Vec<Button>) -> (r: String)
    ensures
        r@ == page_html(buttons.deep_view()),
{
    let mut out = r#"<!DOCTYPE html>
<html lang="en">
    <head>
        <title>BTNify</title>
        <meta charset="utf-8">
    </head>
    <body>
        "#.to_owned();
    let bh = create_buttons_html(buttons);
    out.append(bh.as_str());
    out.append(
        r#"

        <script>
            async function showMessage(id, extra_questions = null) {
                let answers = [];
                if (extra_questions !== null) {
                    for (const question of extra_questions) {
                        let response = prompt(question);
                        answers.push(response);
                    }
                }
                const data = await postData("/", { id, answers });
                alert(data.message);
            }

            async function postData(url = "/", data = {}) {
                const response = await fetch(url, {
                    method: "POST",
                    headers: {
                        "Content-Type": "application/json"
                    },
                    body: JSON.stringify(data)
                });
                return response.json();
            }
        </script>
    </body>
</html>"#,
    );
    out
}

/// The characters that must not stand raw inside a single-quoted string
/// literal of the page's script: the escape introducer, both quotes, and
/// the line and tab controls.
pub open spec fn js_escapable(c: char) -> bool {
    c == '\\' || c == '\'' || c == '"' || c == '\n' || c == '\r' || c == '\t'
}

/// The character denoted by the two-character escape `\c`.
pub open spec fn js_escape_code(c: char) -> char {
    if c == 'n' {
        '\n'
    } else if c == 'r' {
        '\r'
    } else if c == 't' {
        '\t'
    } else {
        c
    }
}

/// `t` is valid as the body of a single-quoted script string literal:
/// every backslash opens a two-character escape, and none of the
/// characters of [`js_escapable`] stands raw.
pub open spec fn js_literal_ok(t: Seq<char>) -> bool
    decreases t.len(),
{
    if t.len() == 0 {
        true
    } else if t[0] == '\\' {
        t.len() >= 2 && js_literal_ok(t.skip(2))
    } else {
        !js_escapable(t[0]) && js_literal_ok(t.skip(1))
    }
}

/// The text a script engine reads back out of a literal body `t`.
pub open spec fn js_unescape(t: Seq<char>) -> Seq<char>
    decreases t.len(),
{
    if t.len() == 0 {
        Seq::empty()
    } else if t[0] == '\\' {
        if t.len() >= 2 {
            seq![js_escape_code(t[1])] + js_unescape(t.skip(2))
        } else {
            Seq::empty()
        }
    } else {
        seq![t[0]] + js_unescape(t.skip(1))
    }
}

proof fn lemma_escape_js_unfold_left(s: Seq<char>)
    requires
        s.len() > 0,
    ensures
        escape_js(s) == escape_js_char(s[0]) + escape_js(s.drop_first()),
    decreases s.len(),
{
    if s.len() == 1 {
        assert(s.drop_last() =~= Seq::<char>::empty());
        assert(s.drop_first() =~= Seq::<char>::empty());
        assert(escape_js(s) =~= escape_js_char(s[0]) + escape_js(s.drop_first()));
    } else {
        let a = s.drop_last();
        lemma_escape_js_unfold_left(a);
        assert(s.drop_first().drop_last() =~= a.drop_first());
        assert(s.drop_first().last() == s.last());
        assert(escape_js(s) =~= escape_js_char(s[0]) + escape_js(s.drop_first()));
    }
}

/// Escaping keeps the page's script well formed and loses nothing: the
/// escaped form of any prompt text is a valid literal body, and reading
/// it back out of the literal reconstructs the prompt text exactly.
pub proof fn lemma_escape_round_trip(s: Seq<char>)
    ensures
        js_literal_ok(escape_js(s)),
        js_unescape(escape_js(s)) == s,
    decreases s.len(),
{
    reveal_strlit("\\\\");
    reveal_strlit("\\'");
    reveal_strlit("\\\"");
    reveal_strlit("\\n");
    reveal_strlit("\\r");
    reveal_strlit("\\t");
    if s.len() == 0 {
        assert(escape_js(s) =~= Seq::<char>::empty());
        assert(js_unescape(escape_js(s)) =~= s);
    } else {
        let c = s[0];
        let rest = s.drop_first();
        lemma_escape_js_unfold_left(s);
        lemma_escape_round_trip(rest);
        let e = escape_js_char(c);
        let t = escape_js(s);
        if js_escapable(c) {
            assert(e.len() == 2 && e[0] == '\\' && js_escape_code(e[1]) == c);
            assert(t[0] == '\\' && t.len() >= 2);
            assert(t.skip(2) =~= escape_js(rest));
            assert(js_unescape(t) =~= seq![c] + js_unescape(escape_js(rest)));
            assert(seq![c] + rest =~= s);
        } else {
            assert(e =~= seq![c]);
            assert(t[0] == c && !js_escapable(t[0]));
            assert(t.skip(1) =~= escape_js(rest));
            assert(js_unescape(t) =~= seq![c] + js_unescape(escape_js(rest)));
            assert(seq![c] + rest =~= s);
        }
    }
}

/// What [`quoted_prompt`] embeds into the page is a well-formed script
/// string literal: a single quote, a valid literal body, and the closing
/// single quote, and reading the body back reconstructs the prompt text
/// exactly. In particular a prompt holding quotes, backslashes or line
/// breaks cannot break out of its literal.
pub proof fn lemma_quoted_prompt_well_formed(p: Seq<char>)
    ensures
        quoted_prompt(p).len() >= 2,
        quoted_prompt(p).first() == '\'',
        quoted_prompt(p).last() == '\'',
        js_literal_ok(quoted_prompt(p).subrange(1, quoted_prompt(p).len() - 1)),
        js_unescape(quoted_prompt(p).subrange(1, quoted_prompt(p).len() - 1)) == p,
{
    reveal_strlit("'");
    lemma_escape_round_trip(p);
    let q = quoted_prompt(p);
    assert(q.subrange(1, q.len() - 1) =~= escape_js(p));
}

/// The rendered page depends on nothing but the frozen button table: any
/// two page bodies produced for the same table are identical, so the one
/// body rendered at bind time may be served verbatim to every reader.
pub proof fn lemma_render_deterministic(bs: Seq<ButtonView>, first: Seq<char>, second: Seq<char>)
    requires
        first == page_html(bs),
        second == page_html(bs),
    ensures
        first == second,
{
}

} // verus!
