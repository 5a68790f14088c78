use vstd::prelude::*;

verus! {

use vstd::string::*;

/// The mathematical value of a stored user record.
pub ghost struct UserView {
    pub id: Seq<char>,
    pub name: Seq<char>,
    pub password: Seq<char>,
    pub email: Seq<char>,
}

/// A persisted user. `id` is assigned once at creation and `password` holds
/// an encoded hash, never plaintext; both invariants are established by the
/// registration flow, not by this type.
#[derive(Debug, Clone)]
pub struct User {
    pub id: String,
    pub name: String,
    pub password: String,
    pub email: String,
}

impl View for User {
    type V = UserView;

    open spec fn view(&self) -> UserView {
        UserView {
            id: self.id@,
            name: self.name@,
            password: self.password@,
            email: self.email@,
        }
    }
}

impl User {
    /// A field-for-field copy.
    pub fn duplicate(&self) -> (r: User)
        ensures
            r@ == self@,
    {
        User {
            id: self.id.clone(),
            name: self.name.clone(),
            password: self.password.clone(),
            email: self.email.clone(),
        }
    }
}

/// Registration input: the password is plaintext and is consumed to produce
/// a `User` whose password field holds its hash.
#[derive(Debug, Clone)]
pub struct NewUser {
    pub name: String,
    pub password: String,
    pub email: String,
}

/// Login input: the password is plaintext, used once for verification and
/// never stored.
#[derive(Debug, Clone)]
pub struct AuthData {
    pub email: String,
    pub password: String,
}

/// How one character is written inside a JSON string literal: quote and
/// backslash are escaped, control characters take the \u00XX form, and
/// every other character stands for itself.
pub open spec fn spec_escaped_char(c: char) -> Seq<char> {
    if c == '"' {
        seq!['\\', '"']
    } else if c == '\\' {
        seq!['\\', '\\']
    } else if (c as u32) < 32 {
        seq!['\\', 'u', '0', '0', spec_hex_digit((c as u32 / 16) as nat), spec_hex_digit((c as u32 % 16) as nat)]
    } else {
        seq![c]
    }
}

/// The hexadecimal digit for a value below 16.
pub open spec fn spec_hex_digit(v: nat) -> char {
    seq!['0', '1', '2', '3', '4', '5', '6', '7', '8', '9', 'a', 'b', 'c', 'd', 'e', 'f'][v as int]
}

/// A whole string escaped for inclusion in a JSON string literal.
pub open spec fn spec_escape(s: Seq<char>) -> Seq<char>
    decreases s.len(),
{
    if s.len() == 0 {
        Seq::empty()
    } else {
        spec_escaped_char(s[0]) + spec_escape(s.drop_first())
    }
}

/// Escaping a string one character longer appends that character's escape.
proof fn lemma_escape_snoc(s: Seq<char>, c: char)
    ensures
        spec_escape(s + seq![c]) == spec_escape(s) + spec_escaped_char(c),
    decreases s.len(),
{
    if s.len() == 0 {
        assert(s + seq![c] =~= seq![c]);
        assert(seq![c].drop_first() =~= Seq::<char>::empty());
        assert(spec_escape(seq![c]) == spec_escaped_char(seq![c][0]) + spec_escape(
            seq![c].drop_first(),
        ));
        assert(spec_escape(Seq::<char>::empty()) == Seq::<char>::empty());
        assert(spec_escape(s + seq![c]) =~= spec_escape(s) + spec_escaped_char(c));
    } else {
        assert((s + seq![c]).drop_first() =~= s.drop_first() + seq![c]);
        lemma_escape_snoc(s.drop_first(), c);
        assert(spec_escape(s + seq![c]) =~= spec_escape(s) + spec_escaped_char(c));
    }
}

/// Relies on std's String: collecting an iterator over characters yields the
/// string of exactly those characters.
#[verifier::external_body]
fn chars_to_string(v: &Vec<char>) -> (r: String)
    ensures
        r@ == v@,
{
    v.iter().collect()
}

/// Appends the JSON escape of `c` to `out`.
fn push_escaped_char(out: &mut Vec<char>, c: char)
    ensures
        final(out)@ == old(out)@ + spec_escaped_char(c),
{
    if c == '"' {
        out.push('\\');
        out.push('"');
        assert(out@ =~= old(out)@ + spec_escaped_char(c));
    } else if c == '\\' {
        out.push('\\');
        out.push('\\');
        assert(out@ =~= old(out)@ + spec_escaped_char(c));
    } else if (c as u32) < 32 {
        let digits: [char; 16] = [
            '0', '1', '2', '3', '4', '5', '6', '7', '8', '9', 'a', 'b', 'c', 'd', 'e', 'f',
        ];
        let v: u32 = c as u32;
        out.push('\\');
        out.push('u');
        out.push('0');
        out.push('0');
        out.push(digits[(v / 16) as usize]);
        out.push(digits[(v % 16) as usize]);
        assert(out@ =~= old(out)@ + spec_escaped_char(c));
    } else {
        out.push(c);
        assert(out@ =~= old(out)@ + spec_escaped_char(c));
    }
}

/// Escapes a string for inclusion in a JSON string literal.
pub fn escape_json(s: &str) -> (r: String)
    ensures
        r@ == spec_escape(s@),
{
    let n = s.unicode_len();
    let mut out: Vec<char> = Vec::new();
    assert(s@.take(0) =~= Seq::<char>::empty());
    for i in 0..n
        invariant
            n == s@.len(),
            out@ == spec_escape(s@.take(i as int)),
    {
        let c = s.get_char(i);
        push_escaped_char(&mut out, c);
        proof {
            assert(s@.take(i + 1) =~= s@.take(i as int) + seq![s@[i as int]]);
            lemma_escape_snoc(s@.take(i as int), s@[i as int]);
        }
    }
    assert(s@.take(n as int) =~= s@);
    chars_to_string(&out)
}

/// The client-visible JSON form of a user: id, name and email, with the
/// password hash omitted.
pub open spec fn spec_user_json(u: UserView) -> Seq<char> {
    "{\"id\":\""@ + spec_escape(u.id) + "\",\"name\":\""@ + spec_escape(u.name) + "\",\"email\":\""@
        + spec_escape(u.email) + "\"}"@
}

/// The serialized form of a user is independent of the stored password
/// hash: two records that differ only in their password serialize to the
/// same bytes, so no client-visible body or identity claim reveals it.
pub proof fn lemma_user_json_omits_password(u1: UserView, u2: UserView)
    requires
        u1.id == u2.id,
        u1.name == u2.name,
        u1.email == u2.email,
    ensures
        spec_user_json(u1) == spec_user_json(u2),
{
}

/// Serializes a user for a response body or an identity claim. The password
/// field never appears in the output.
pub fn user_json(u: &User) -> (r: String)
    ensures
        r@ == spec_user_json(u@),
{
    let mut r = "{\"id\":\"".to_owned();
    r.append(escape_json(u.id.as_str()).as_str());
    r.append("\",\"name\":\"");
    r.append(escape_json(u.name.as_str()).as_str());
    r.append("\",\"email\":\"");
    r.append(escape_json(u.email.as_str()).as_str());
    r.append("\"}");
    r
}

} // verus!
