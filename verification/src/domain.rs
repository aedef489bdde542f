//! Validated domain values: a subscriber's name and email address, and the
//! pair of them that the subscription flow works with.

use vstd::prelude::*;


verus! {

/// ASCII whitespace, the blank characters the validators ignore.
pub open spec fn is_space_char(c: char) -> bool {
    c == ' ' || c == '\t' || c == '\n' || c == '\r'
}

/// Characters that are never accepted in a subscriber's name.
pub open spec fn is_forbidden_name_char(c: char) -> bool {
    c == '/' || c == '(' || c == ')' || c == '"' || c == '<' || c == '>' || c == '\\' || c == '{'
        || c == '}'
}

/// A name is accepted when it shows at least one non-blank character, is at
/// most 256 characters long, and holds none of the forbidden characters.
pub open spec fn valid_subscriber_name(s: Seq<char>) -> bool {
    &&& exists|j: int| 0 <= j < s.len() && !is_space_char(#[trigger] s[j])
    &&& s.len() <= 256
    &&& forall|j: int| 0 <= j < s.len() ==> !is_forbidden_name_char(#[trigger] s[j])
}

/// How many times `c` occurs in `s`.
pub open spec fn count_char(s: Seq<char>, c: char) -> nat
    decreases s.len(),
{
    if s.len() == 0 {
        0
    } else {
        count_char(s.drop_last(), c) + (if s.last() == c {
            1nat
        } else {
            0nat
        })
    }
}

/// An address is accepted when it has no blank character and exactly one `@`,
/// with at least one character on each side of it.
pub open spec fn valid_subscriber_email(s: Seq<char>) -> bool {
    &&& forall|j: int| 0 <= j < s.len() ==> !is_space_char(#[trigger] s[j])
    &&& count_char(s, '@') == 1
    &&& s.len() >= 3
    &&& s[0] != '@'
    &&& s[s.len() - 1] != '@'
}

proof fn lemma_count_char_take_step(s: Seq<char>, c: char, i: int)
    requires
        0 <= i < s.len(),
    ensures
        count_char(s.take(i + 1), c) == count_char(s.take(i), c) + (if s[i] == c {
            1nat
        } else {
            0nat
        }),
{
    assert(s.take(i + 1).drop_last() =~= s.take(i));
    assert(s.take(i + 1).last() == s[i]);
}

fn is_space(c: char) -> (r: bool)
    ensures
        r == is_space_char(c),
{
    c == ' ' || c == '\t' || c == '\n' || c == '\r'
}

fn is_forbidden_name(c: char) -> (r: bool)
    ensures
        r == is_forbidden_name_char(c),
{
    c == '/' || c == '(' || c == ')' || c == '"' || c == '<' || c == '>' || c == '\\' || c == '{'
        || c == '}'
}

/// A subscriber's name, only ever built from a string the validator accepted.
#[derive(Clone, Debug)]
pub struct SubscriberName(String);

impl View for SubscriberName {
    type V = Seq<char>;

    closed spec fn view(&self) -> Seq<char> {
        self.0@
    }
}

impl SubscriberName {
    /// Accepts `s` exactly when it is a valid subscriber name, and then wraps
    /// it unchanged; rejected input comes back in the error message.
    pub fn parse(s: String) -> (r: Result<SubscriberName, String>)
        ensures
            r is Ok <==> valid_subscriber_name(s@),
            r is Ok ==> r->Ok_0@ == s@,
            r is Err ==> r->Err_0@ == s@ + " is not a valid subscriber name."@,
    {
        let len = s.as_str().unicode_len();
        let mut i: usize = 0;
        let mut has_visible = false;
        let mut has_forbidden = false;
        while i < len
            invariant
                len == s@.len(),
                0 <= i <= len,
                has_visible <==> exists|j: int| 0 <= j < i && !is_space_char(#[trigger] s@[j]),
                has_forbidden <==> exists|j: int|
                    0 <= j < i && is_forbidden_name_char(#[trigger] s@[j]),
            decreases len - i,
        {
            let c = s.as_str().get_char(i);
            if !is_space(c) {
                has_visible = true;
                assert(!is_space_char(s@[i as int]));
            }
            if is_forbidden_name(c) {
                has_forbidden = true;
                assert(is_forbidden_name_char(s@[i as int]));
            }
            i += 1;
        }
        if has_visible && !has_forbidden && len <= 256 {
            Ok(SubscriberName(s))
        } else {
            Err(s.concat(" is not a valid subscriber name."))
        }
    }

    /// The accepted name, unchanged.
    pub fn as_ref(&self) -> (r: &str)
        ensures
            r@ == self@,
    {
        self.0.as_str()
    }
}

/// A subscriber's email address, only ever built from a string the validator
/// accepted.
#[derive(Clone, Debug)]
pub struct SubscriberEmail(String);

impl View for SubscriberEmail {
    type V = Seq<char>;

    closed spec fn view(&self) -> Seq<char> {
        self.0@
    }
}

impl SubscriberEmail {
    /// Accepts `s` exactly when it is a valid subscriber email, and then wraps
    /// it unchanged; rejected input comes back in the error message.
    pub fn parse(s: String) -> (r: Result<SubscriberEmail, String>)
        ensures
            r is Ok <==> valid_subscriber_email(s@),
            r is Ok ==> r->Ok_0@ == s@,
            r is Err ==> r->Err_0@ == s@ + " is not a valid subscriber email."@,
    {
        let len = s.as_str().unicode_len();
        let mut i: usize = 0;
        let mut has_space = false;
        let mut ats: usize = 0;
        while i < len
            invariant
                len == s@.len(),
                0 <= i <= len,
                has_space <==> exists|j: int| 0 <= j < i && is_space_char(#[trigger] s@[j]),
                ats == count_char(s@.take(i as int), '@'),
                ats <= i,
            decreases len - i,
        {
            let c = s.as_str().get_char(i);
            if is_space(c) {
                has_space = true;
                assert(is_space_char(s@[i as int]));
            }
            proof {
                lemma_count_char_take_step(s@, '@', i as int);
            }
            if c == '@' {
                ats += 1;
            }
            i += 1;
        }
        proof {
            assert(s@.take(len as int) =~= s@);
        }
        let ok = !has_space && ats == 1 && len >= 3 && s.as_str().get_char(0) != '@'
            && s.as_str().get_char(len - 1) != '@';
        if ok {
            Ok(SubscriberEmail(s))
        } else {
            Err(s.concat(" is not a valid subscriber email."))
        }
    }

    /// The accepted address, unchanged.
    pub fn as_ref(&self) -> (r: &str)
        ensures
            r@ == self@,
    {
        self.0.as_str()
    }
}

/// A validated subscription request: who is subscribing, under what name.
#[derive(Clone, Debug)]
pub struct NewSubscriber {
    pub email: SubscriberEmail,
    pub name: SubscriberName,
}

} // verus!
