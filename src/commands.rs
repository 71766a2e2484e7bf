use crate::package::{flag_of, Flatpak, PackageModel};
use vstd::prelude::*;

verus! {

/// One remote endpoint: who to log in as, where, and on which port.
#[derive(Clone, Debug)]
pub struct RemoteTarget {
    pub username: String,
    pub host: String,
    pub port: u16,
}

impl RemoteTarget {
    pub fn new(username: &str, host: &str, port: u16) -> (r: Self)
        ensures
            r.username@ == username@,
            r.host@ == host@,
            r.port == port,
    {
        RemoteTarget { username: String::from_str(username), host: String::from_str(host), port }
    }

    /// A copy that keeps every field.
    pub fn duplicate(&self) -> (r: Self)
        ensures
            r.username@ == self.username@,
            r.host@ == self.host@,
            r.port == self.port,
    {
        RemoteTarget { username: self.username.clone(), host: self.host.clone(), port: self.port }
    }
}

/// The views of a sequence of strings, in order.
pub open spec fn texts(v: Seq<String>) -> Seq<Seq<char>> {
    v.map_values(|s: String| s@)
}

/// The decimal digit for `d`.
pub open spec fn digit_char(d: nat) -> char {
    "0123456789"@[d as int]
}

/// The decimal notation of `n`, without leading zeros.
pub open spec fn decimal(n: nat) -> Seq<char>
    decreases n,
{
    if n < 10 {
        seq![digit_char(n)]
    } else {
        decimal(n / 10).push(digit_char(n % 10))
    }
}

/// How one character of a word is written between single quotes: a quote
/// closes the quoted run, is escaped, and opens a new one.
pub open spec fn quoted_char(c: char) -> Seq<char> {
    if c == '\'' {
        "'\\''"@
    } else {
        seq![c]
    }
}

pub open spec fn quote_body(s: Seq<char>) -> Seq<char>
    decreases s.len(),
{
    if s.len() == 0 {
        seq![]
    } else {
        quote_body(s.drop_last()) + quoted_char(s.last())
    }
}

/// `s` as one word of a POSIX shell command line, whatever characters it
/// holds: the shell reads it back as exactly `s`.
pub open spec fn shell_quoted(s: Seq<char>) -> Seq<char> {
    "'"@ + quote_body(s) + "'"@
}

/// The remote command line that installs one package without asking.
pub open spec fn install_command_of(p: PackageModel) -> Seq<char> {
    "flatpak install "@ + flag_of(p.scope) + " "@ + shell_quoted(p.name) + " -y"@
}

/// Where the private key for `host` lives inside the key directory.
pub open spec fn key_path_of(dir: Seq<char>, host: Seq<char>) -> Seq<char> {
    dir + "/"@ + host + "_sync-key"@
}

/// Where the public half of a private key lives.
pub open spec fn public_key_path_of(key_path: Seq<char>) -> Seq<char> {
    key_path + ".pub"@
}

/// The comment that tags a key with the host it was made for.
pub open spec fn key_comment_of(host: Seq<char>) -> Seq<char> {
    "flatpak-sync@"@ + host
}

/// The arguments of the key generator: an RSA key without passphrase,
/// written to `key_path` and tagged with the host.
pub open spec fn keygen_args_of(key_path: Seq<char>, host: Seq<char>) -> Seq<Seq<char>> {
    seq!["-t"@, "rsa"@, "-N"@, ""@, "-f"@, key_path, "-C"@, key_comment_of(host)]
}

/// The arguments of the tool that appends the public key to the remote
/// authorized keys.
pub open spec fn copy_id_args_of(
    key_path: Seq<char>,
    username: Seq<char>,
    host: Seq<char>,
    port: u16,
) -> Seq<Seq<char>> {
    seq!["-i"@, key_path, "-p"@, decimal(port as nat), username + "@"@ + host]
}

/// The decimal notation of a port number.
pub fn decimal_string(n: u16) -> (r: String)
    ensures
        r@ == decimal(n as nat),
{
    let digits = "0123456789";
    proof {
        reveal_strlit("0123456789");
    }
    let mut m: u16 = n / 10;
    let d: usize = (n % 10) as usize;
    let mut out = String::from_str(digits.substring_char(d, d + 1));
    assert(out@ =~= seq![digit_char(d as nat)]);
    while m > 0
        invariant
            digits@ == "0123456789"@,
            decimal(n as nat) == (if m == 0 {
                seq![]
            } else {
                decimal(m as nat)
            }) + out@,
        decreases m,
    {
        let d: usize = (m % 10) as usize;
        proof {
            reveal_strlit("0123456789");
        }
        let ds = digits.substring_char(d, d + 1);
        assert(ds@ =~= seq![digit_char(d as nat)]);
        let ghost prev = out@;
        out = String::from_str(ds).concat(out.as_str());
        if m < 10 {
            assert(decimal(m as nat) =~= seq![digit_char(d as nat)]);
        } else {
            assert(decimal(m as nat) =~= decimal((m / 10) as nat).push(digit_char(d as nat)));
        }
        assert(decimal(n as nat) =~= (if m / 10 == 0 {
            seq![]
        } else {
            decimal((m / 10) as nat)
        }) + out@);
        m = m / 10;
    }
    assert(decimal(n as nat) =~= out@);
    out
}

/// `s` quoted as one shell word.
pub fn shell_quote(s: &str) -> (r: String)
    ensures
        r@ == shell_quoted(s@),
{
    let n = s.unicode_len();
    let mut body = String::new();
    let mut i: usize = 0;
    while i < n
        invariant
            n == s@.len(),
            i <= n,
            body@ == quote_body(s@.subrange(0, i as int)),
        decreases n - i,
    {
        let ghost prev = body@;
        let c = s.get_char(i);
        if c == '\'' {
            body.append("'\\''");
        } else {
            body.append(s.substring_char(i, i + 1));
            assert(s@.subrange(i as int, i + 1) =~= seq![c]);
        }
        assert(s@.subrange(0, i + 1).drop_last() =~= s@.subrange(0, i as int));
        i = i + 1;
    }
    assert(s@.subrange(0, n as int) =~= s@);
    let mut r = String::from_str("'");
    r.append(body.as_str());
    r.append("'");
    r
}

/// The remote command line that installs `f` in its scope, non-interactively,
/// with the package name passed as one quoted word.
pub fn install_command(f: &Flatpak) -> (r: String)
    ensures
        r@ == install_command_of(f@),
{
    let mut r = String::from_str("flatpak install ");
    let flag = f.install_type.flag_string();
    r.append(flag.as_str());
    r.append(" ");
    let quoted = shell_quote(f.name.as_str());
    r.append(quoted.as_str());
    r.append(" -y");
    r
}

/// The private key file for `host` in the key directory `dir`.
pub fn key_file_path(dir: &str, host: &str) -> (r: String)
    ensures
        r@ == key_path_of(dir@, host@),
{
    let mut r = String::from_str(dir);
    r.append("/");
    r.append(host);
    r.append("_sync-key");
    r
}

/// The public key file that belongs to a private key file.
pub fn public_key_file_path(key_path: &str) -> (r: String)
    ensures
        r@ == public_key_path_of(key_path@),
{
    let mut r = String::from_str(key_path);
    r.append(".pub");
    r
}

/// The arguments of the key generator for `host`.
pub fn keygen_args(key_path: &str, host: &str) -> (r: Vec<String>)
    ensures
        texts(r@) == keygen_args_of(key_path@, host@),
{
    let mut comment = String::from_str("flatpak-sync@");
    comment.append(host);
    let mut r: Vec<String> = Vec::new();
    r.push(String::from_str("-t"));
    r.push(String::from_str("rsa"));
    r.push(String::from_str("-N"));
    r.push(String::from_str(""));
    r.push(String::from_str("-f"));
    r.push(String::from_str(key_path));
    r.push(String::from_str("-C"));
    r.push(comment);
    assert(texts(r@) =~= keygen_args_of(key_path@, host@));
    r
}

/// The arguments that authorise the public key of `key_path` on `target`.
pub fn copy_id_args(key_path: &str, target: &RemoteTarget) -> (r: Vec<String>)
    ensures
        texts(r@) == copy_id_args_of(key_path@, target.username@, target.host@, target.port),
{
    let mut login = target.username.clone();
    login.append("@");
    login.append(target.host.as_str());
    let mut r: Vec<String> = Vec::new();
    r.push(String::from_str("-i"));
    r.push(String::from_str(key_path));
    r.push(String::from_str("-p"));
    r.push(decimal_string(target.port));
    r.push(login);
    assert(texts(r@) =~= copy_id_args_of(
        key_path@,
        target.username@,
        target.host@,
        target.port,
    ));
    r
}

} // verus!
