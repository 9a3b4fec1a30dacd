//! Passphrase generation with guaranteed character-class coverage.
//!
//! A passphrase is drawn character by character, uniformly at random, from an
//! alphabet built out of fixed character classes. A candidate is accepted
//! only if it contains at least one character from each of the four
//! mandatory classes: lowercase, uppercase, digit and basic symbol. A
//! rejected candidate is discarded and generation restarts from scratch.
//!
//! A requested length below four cannot cover four distinct classes, so such
//! requests fail fast with [`PassError::InvalidLength`] instead of looping.
//! The rejection sampling is bounded by [`MAX_TRIES`] attempts; this bound is
//! a deliberate safety cap on an otherwise unbounded loop, and exhausting it
//! is reported as [`PassError::TriesExhausted`].

use rand::Rng;
use vstd::prelude::*;
use vstd::string::StrSliceExecFns;
use vstd::string::StringExecFns;

verus! {

/// The kind of passphrase to generate. `Complex` enlarges the sampling
/// alphabet with an extended symbol class; the acceptance test is the same
/// for both kinds.
#[derive(Debug, Clone)]
pub enum PasswordType {
    Simple,
    Complex,
}

/// One character class that passphrases are built from.
pub enum PasswordContents {
    Lc,
    Uc,
    Num,
    Sc,
    Scext,
}

/// How a passphrase request can fail.
#[derive(Debug, Clone, Copy, PartialEq, Eq, Structural)]
pub enum PassError {
    /// The requested length is below the number of mandatory character
    /// classes, so class coverage is unsatisfiable.
    InvalidLength,
    /// The bounded rejection sampling gave up after [`MAX_TRIES`] candidates.
    TriesExhausted,
}

/// The cap on rejection-sampling attempts: a deliberate bound on the
/// otherwise unbounded acceptance loop.
pub const MAX_TRIES: u32 = 1000;

impl PasswordContents {
    /// The characters of this class.
    pub open spec fn spec_chars(self) -> Seq<char> {
        match self {
            PasswordContents::Lc => "abcdefghijklmnopqrstuvwxyz"@,
            PasswordContents::Uc => "ABCDEFGHIJKLMNOPQRSTUVWXYZ"@,
            PasswordContents::Num => "0123456789"@,
            PasswordContents::Sc => "!+=%#*@^"@,
            PasswordContents::Scext => "~{}[]()"@,
        }
    }

    /// The characters of this class, as a string slice.
    pub fn value(&self) -> (r: &str)
        ensures
            r@ == self.spec_chars(),
    {
        match *self {
            PasswordContents::Lc => "abcdefghijklmnopqrstuvwxyz",
            PasswordContents::Uc => "ABCDEFGHIJKLMNOPQRSTUVWXYZ",
            PasswordContents::Num => "0123456789",
            PasswordContents::Sc => "!+=%#*@^",
            PasswordContents::Scext => "~{}[]()",
        }
    }
}

/// Whether `s` holds at least one character of the class `class`.
pub open spec fn contains_class(s: Seq<char>, class: Seq<char>) -> bool {
    exists|i: int| 0 <= i < s.len() && class.contains(s[i])
}

/// Whether `s` covers every mandatory character class: lowercase, uppercase,
/// digit and basic symbol. The extended symbol class is never required.
pub open spec fn has_mandatory_classes(s: Seq<char>) -> bool {
    &&& contains_class(s, PasswordContents::Lc.spec_chars())
    &&& contains_class(s, PasswordContents::Uc.spec_chars())
    &&& contains_class(s, PasswordContents::Num.spec_chars())
    &&& contains_class(s, PasswordContents::Sc.spec_chars())
}

/// The sampling alphabet: the four mandatory classes, with the extended
/// symbol class appended when the kind is not simple.
pub open spec fn charset_chars(simple: bool) -> Seq<char> {
    let base = PasswordContents::Lc.spec_chars() + PasswordContents::Uc.spec_chars()
        + PasswordContents::Num.spec_chars() + PasswordContents::Sc.spec_chars();
    if simple {
        base
    } else {
        base + PasswordContents::Scext.spec_chars()
    }
}

/// What a successfully generated passphrase guarantees: the requested
/// length, coverage of all four mandatory classes, characters drawn from the
/// sampling alphabet alone, and, for the simple alphabet, no character of
/// the extended symbol class.
pub open spec fn generate_ok(s: Seq<char>, simple: bool, length: int) -> bool {
    &&& s.len() == length
    &&& has_mandatory_classes(s)
    &&& forall|i: int| 0 <= i < s.len() ==> charset_chars(simple).contains(#[trigger] s[i])
    &&& (simple ==> forall|i: int|
        0 <= i < s.len() ==> !PasswordContents::Scext.spec_chars().contains(#[trigger] s[i]))
}

/// The full contract of a passphrase request: a length below four fails with
/// `InvalidLength` and nothing else does, and every returned passphrase
/// satisfies [`generate_ok`]. Success is otherwise at the mercy of the
/// random draws, which the bounded acceptance loop cannot promise to win.
pub open spec fn generate_result_ok(r: Result<String, PassError>, simple: bool, length: int) -> bool {
    &&& (length < 4 <==> r matches Err(PassError::InvalidLength))
    &&& (r matches Ok(s) ==> generate_ok(s@, simple, length))
}

/// No character of the simple alphabet belongs to the extended symbol class:
/// a passphrase drawn from the simple alphabet can never contain one.
pub proof fn lemma_simple_alphabet_no_extended()
    ensures
        forall|c: char| #[trigger] charset_chars(true).contains(c)
            ==> !PasswordContents::Scext.spec_chars().contains(c),
{
    reveal_strlit("abcdefghijklmnopqrstuvwxyz");
    reveal_strlit("ABCDEFGHIJKLMNOPQRSTUVWXYZ");
    reveal_strlit("0123456789");
    reveal_strlit("!+=%#*@^");
    reveal_strlit("~{}[]()");
    let base = charset_chars(true);
    let ext = PasswordContents::Scext.spec_chars();
    assert forall|c: char| #[trigger] base.contains(c) implies !ext.contains(c) by {
        let i = choose|i: int| 0 <= i < base.len() && base[i] == c;
    }
}

/// Relies on rand's thread-local generator: `Rng::gen_range` over `0..n`
/// returns a value of that range, and panics only when the range is empty,
/// which the precondition rules out.
#[verifier::external_body]
fn random_index(n: usize) -> (r: usize)
    requires
        n > 0,
    ensures
        r < n,
{
    rand::thread_rng().gen_range(0..n)
}

/// Relies on `String::push`: appends exactly the given character at the end.
#[verifier::external_body]
fn push_char(s: &mut String, c: char)
    ensures
        final(s)@ == old(s)@.push(c),
{
    s.push(c)
}

/// Whether `list` holds the character `c`.
fn str_contains_char(list: &str, c: char) -> (r: bool)
    ensures
        r == list@.contains(c),
{
    let n = list.unicode_len();
    let mut i: usize = 0;
    while i < n
        invariant
            i <= n,
            n == list@.len(),
            forall|j: int| 0 <= j < i ==> list@[j] != c,
        decreases n - i,
    {
        if list.get_char(i) == c {
            proof {
                assert(list@[i as int] == c);
            }
            return true;
        }
        i = i + 1;
    }
    false
}

/// Draws `length` characters independently and uniformly at random from
/// `charset`, with replacement.
fn sample_candidate(charset: &str, length: usize) -> (r: String)
    requires
        charset@.len() > 0,
    ensures
        r@.len() == length as int,
        forall|i: int| 0 <= i < r@.len() ==> charset@.contains(#[trigger] r@[i]),
{
    let n = charset.unicode_len();
    let mut password = String::new();
    let mut i: usize = 0;
    while i < length
        invariant
            i <= length,
            password@.len() == i as int,
            n == charset@.len(),
            charset@.len() > 0,
            forall|j: int| 0 <= j < password@.len() ==> charset@.contains(#[trigger] password@[j]),
        decreases length - i,
    {
        let idx = random_index(n);
        let c = charset.get_char(idx);
        push_char(&mut password, c);
        proof {
            assert(charset@[idx as int] == c);
            assert(charset@.contains(c));
        }
        i = i + 1;
    }
    password
}

/// A passphrase request: the kind of alphabet to draw from and the desired
/// length.
pub struct Password {
    pub password_type: PasswordType,
    pub password_length: i32,
}

impl Password {
    /// Whether at least one character of `password` belongs to the class
    /// `sub_list`.
    pub fn check_in_list(&self, password: &String, sub_list: &PasswordContents) -> (r: bool)
        ensures
            r == contains_class(password@, sub_list.spec_chars()),
    {
        let list = sub_list.value();
        let n = password.as_str().unicode_len();
        let mut i: usize = 0;
        while i < n
            invariant
                i <= n,
                n == password@.len(),
                list@ == sub_list.spec_chars(),
                forall|j: int| 0 <= j < i ==> !sub_list.spec_chars().contains(#[trigger] password@[j]),
            decreases n - i,
        {
            let c = password.as_str().get_char(i);
            if str_contains_char(list, c) {
                proof {
                    assert(sub_list.spec_chars().contains(password@[i as int]));
                }
                return true;
            }
            i = i + 1;
        }
        false
    }

    /// Whether `password` covers all four mandatory character classes.
    fn meets_mandatory(&self, password: &String) -> (r: bool)
        ensures
            r == has_mandatory_classes(password@),
    {
        let lc = self.check_in_list(password, &PasswordContents::Lc);
        let uc = self.check_in_list(password, &PasswordContents::Uc);
        let num = self.check_in_list(password, &PasswordContents::Num);
        let sc = self.check_in_list(password, &PasswordContents::Sc);
        lc && uc && num && sc
    }

    /// Builds the sampling alphabet: the four mandatory classes, and the
    /// extended symbol class as well when `simple` is false.
    pub fn get_charset(&self, simple: bool) -> (r: String)
        ensures
            r@ == charset_chars(simple),
            r@.len() > 0,
    {
        let mut main_string = String::new();
        main_string.append(PasswordContents::Lc.value());
        main_string.append(PasswordContents::Uc.value());
        main_string.append(PasswordContents::Num.value());
        main_string.append(PasswordContents::Sc.value());
        proof {
            reveal_strlit("abcdefghijklmnopqrstuvwxyz");
        }
        if simple {
            proof {
                assert(main_string@ =~= charset_chars(true));
            }
            main_string
        } else {
            main_string.append(PasswordContents::Scext.value());
            proof {
                assert(main_string@ =~= charset_chars(false));
            }
            main_string
        }
    }

    /// Generates a passphrase of the requested length by bounded rejection
    /// sampling: candidates are drawn uniformly from the alphabet and
    /// discarded wholesale until one covers all four mandatory classes.
    fn get_password(&self, simple: bool, length: i32) -> (r: Result<String, PassError>)
        ensures
            generate_result_ok(r, simple, length as int),
    {
        if length < 4 {
            return Err(PassError::InvalidLength);
        }
        let binding = self.get_charset(simple);
        let charset: &str = binding.as_str();
        let length_u: usize = length as usize;
        let mut tries: u32 = 0;
        while tries < MAX_TRIES
            invariant
                4 <= length,
                length_u == length as usize,
                binding@ == charset_chars(simple),
                charset@ == binding@,
                binding@.len() > 0,
            decreases MAX_TRIES - tries,
        {
            let password = sample_candidate(charset, length_u);
            if self.meets_mandatory(&password) {
                proof {
                    if simple {
                        lemma_simple_alphabet_no_extended();
                    }
                }
                return Ok(password);
            }
            tries = tries + 1;
        }
        Err(PassError::TriesExhausted)
    }

    /// Generates a passphrase for this request: the kind picks the alphabet,
    /// and the result is guaranteed to satisfy [`generate_result_ok`].
    pub fn get_a_password(&self) -> (r: Result<String, PassError>)
        ensures
            generate_result_ok(r, self.password_type is Simple, self.password_length as int),
    {
        match self.password_type {
            PasswordType::Complex => self.get_password(false, self.password_length),
            PasswordType::Simple => self.get_password(true, self.password_length),
        }
    }
}

/// Generates a complex-alphabet passphrase of the given length, as the UI's
/// synchronous request for a fresh passphrase.
pub fn set_pass(length: i32) -> (r: Result<String, PassError>)
    ensures
        generate_result_ok(r, false, length as int),
{
    let p = Password { password_type: PasswordType::Complex, password_length: length };
    p.get_a_password()
}

} // verus!
