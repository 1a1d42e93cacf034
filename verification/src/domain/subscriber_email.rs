use vstd::prelude::*;

verus! {

/// Whether the `validator` crate accepts a text as an email address.
pub uninterp spec fn email_is_valid(s: Seq<char>) -> bool;

/// What a rejected email address is answered with.
pub open spec fn invalid_email_message(s: Seq<char>) -> Seq<char> {
    s + " is not a valid subscriber email."@
}

/// Calls `validator::validate_email` on `s`. Trusted to return the crate's
/// verdict, named `email_is_valid`; and, as its source shows, it refuses an
/// empty text and one without `@`.
#[verifier::external_body]
fn validate_email(s: &str) -> (ok: bool)
    ensures
        ok == email_is_valid(s@),
        ok ==> s@.len() > 0 && s@.contains('@'),
{
    validator::validate_email(s)
}

/// Law: a rejected email address is answered with the address itself
/// followed by " is not a valid subscriber email.".
pub proof fn lemma_invalid_email_message(s: Seq<char>)
    ensures
        invalid_email_message(s).len() == s.len() + " is not a valid subscriber email."@.len(),
        invalid_email_message(s).subrange(0, s.len() as int) == s,
        invalid_email_message(s).subrange(s.len() as int, invalid_email_message(s).len() as int)
            == " is not a valid subscriber email."@,
{
    assert(invalid_email_message(s).subrange(0, s.len() as int) =~= s);
    assert(invalid_email_message(s).subrange(s.len() as int, invalid_email_message(s).len() as int)
        =~= " is not a valid subscriber email."@);
}

/// An email address that the validator accepted.
pub struct SubscriberEmail {
    email: String,
}

impl View for SubscriberEmail {
    type V = Seq<char>;

    closed spec fn view(&self) -> Seq<char> {
        self.email@
    }
}

impl SubscriberEmail {
    /// Every subscriber email passes the validator.
    #[verifier::type_invariant]
    closed spec fn is_accepted(self) -> bool {
        &&& email_is_valid(self.email@)
        &&& self.email@.len() > 0
        &&& self.email@.contains('@')
    }

    /// The answer to an email address `s`, given the validator's verdict on it.
    pub fn from_verdict(s: String, valid: bool) -> (res: Result<String, String>)
        ensures
            valid ==> res == Ok::<String, String>(s),
            !valid ==> res is Err && res->Err_0@ == invalid_email_message(s@),
    {
        if valid {
            Ok(s)
        } else {
            Err(s.concat(" is not a valid subscriber email."))
        }
    }

    /// Checks `s` with the validator and keeps it unchanged when it passes.
    pub fn parse(s: String) -> (res: Result<SubscriberEmail, String>)
        ensures
            email_is_valid(s@) ==> res is Ok && res->Ok_0@ == s@,
            !email_is_valid(s@) ==> res is Err && res->Err_0@ == invalid_email_message(s@),
    {
        let valid = validate_email(s.as_str());
        match Self::from_verdict(s, valid) {
            Ok(email) => Ok(SubscriberEmail { email }),
            Err(message) => Err(message),
        }
    }

    /// The address as text; the validator accepts it, and it holds an `@`.
    pub fn as_ref(&self) -> (r: &str)
        ensures
            r@ == self@,
            email_is_valid(self@),
            self@.len() > 0,
            self@.contains('@'),
    {
        proof {
            use_type_invariant(self);
        }
        self.email.as_str()
    }
}

} // verus!
