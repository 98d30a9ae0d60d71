use vstd::prelude::*;
use vstd::string::*;

verus! {

/// The character that writes a digit below ten.
pub open spec fn digit_char(d: nat) -> char {
    if d == 0 {
        '0'
    } else if d == 1 {
        '1'
    } else if d == 2 {
        '2'
    } else if d == 3 {
        '3'
    } else if d == 4 {
        '4'
    } else if d == 5 {
        '5'
    } else if d == 6 {
        '6'
    } else if d == 7 {
        '7'
    } else if d == 8 {
        '8'
    } else {
        '9'
    }
}

/// A number written in decimal, without leading zeros.
pub open spec fn decimal(n: nat) -> Seq<char>
    decreases n,
{
    if n < 10 {
        seq![digit_char(n)]
    } else {
        decimal(n / 10).push(digit_char(n % 10))
    }
}

/// The one-character text of a digit.
fn digit_text(d: usize) -> (r: &'static str)
    requires
        d < 10,
    ensures
        r@ == seq![digit_char(d as nat)],
{
    proof {
        reveal_strlit("0");
        reveal_strlit("1");
        reveal_strlit("2");
        reveal_strlit("3");
        reveal_strlit("4");
        reveal_strlit("5");
        reveal_strlit("6");
        reveal_strlit("7");
        reveal_strlit("8");
        reveal_strlit("9");
    }
    let r = if d == 0 {
        "0"
    } else if d == 1 {
        "1"
    } else if d == 2 {
        "2"
    } else if d == 3 {
        "3"
    } else if d == 4 {
        "4"
    } else if d == 5 {
        "5"
    } else if d == 6 {
        "6"
    } else if d == 7 {
        "7"
    } else if d == 8 {
        "8"
    } else {
        "9"
    };
    assert(r@ =~= seq![digit_char(d as nat)]);
    r
}

/// Appends `n` in decimal to `out`.
pub fn push_decimal(out: &mut String, n: usize)
    ensures
        final(out)@ == old(out)@ + decimal(n as nat),
    decreases n,
{
    if n < 10 {
        out.append(digit_text(n));
    } else {
        push_decimal(out, n / 10);
        out.append(digit_text(n % 10));
        assert(old(out)@ + decimal((n / 10) as nat) + seq![digit_char((n % 10) as nat)] =~= old(
            out,
        )@ + decimal(n as nat));
    }
}

/// The argument that tells a driver which port to listen on.
pub open spec fn spec_port_argument(port: nat) -> Seq<char> {
    "--port="@ + decimal(port)
}

/// The address of a driver that listens on `port` of this machine.
pub open spec fn spec_base_url(port: nat) -> Seq<char> {
    "http://localhost:"@ + decimal(port)
}

/// The address at which a session is opened.
pub open spec fn spec_session_url(base: Seq<char>) -> Seq<char> {
    base + "/session"@
}

/// The address of a command of one session.
pub open spec fn spec_command_url(base: Seq<char>, session_id: Seq<char>, path: Seq<char>) -> Seq<
    char,
> {
    base + "/session/"@ + session_id + "/"@ + path
}

/// The path of the command that captures one element.
pub open spec fn spec_element_screenshot_path(element: Seq<char>) -> Seq<char> {
    "element/"@ + element + "/screenshot"@
}

/// Writes the argument that is appended to the driver's command line.
pub fn port_argument(port: usize) -> (r: String)
    ensures
        r@ == spec_port_argument(port as nat),
{
    let mut r = String::from_str("--port=");
    push_decimal(&mut r, port);
    r
}

/// Writes the address of the driver.
pub fn base_url(port: usize) -> (r: String)
    ensures
        r@ == spec_base_url(port as nat),
{
    let mut r = String::from_str("http://localhost:");
    push_decimal(&mut r, port);
    r
}

/// Writes the address at which a session is opened.
pub fn session_url(base: &str) -> (r: String)
    ensures
        r@ == spec_session_url(base@),
{
    let mut r = String::from_str(base);
    r.append("/session");
    r
}

/// Writes the address of a command of one session.
pub fn command_url(base: &str, session_id: &str, path: &str) -> (r: String)
    ensures
        r@ == spec_command_url(base@, session_id@, path@),
{
    let mut r = String::from_str(base);
    r.append("/session/");
    r.append(session_id);
    r.append("/");
    r.append(path);
    r
}

/// Writes the path of the command that captures one element.
pub fn element_screenshot_path(element: &str) -> (r: String)
    ensures
        r@ == spec_element_screenshot_path(element@),
{
    let mut r = String::from_str("element/");
    r.append(element);
    r.append("/screenshot");
    r
}

} // verus!
