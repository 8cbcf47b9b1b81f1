use vstd::prelude::*;

use crate::persist::auth::Credentials;
use libreauth::pass::Hasher;

verus! {

/// Declares libreauth's `pass::Hasher`, the configured password hasher;
/// carried through opaquely.
#[verifier::external_type_specification]
#[verifier::external_body]
pub struct ExHasher(libreauth::pass::Hasher);

/// Length bounds, in characters, that login input must meet before it
/// reaches the auth backend.
#[derive(Debug, Clone, Copy)]
pub struct ValidationRules {
    /// Shortest password accepted
    pub pass_min: usize,
    /// Longest password accepted
    pub pass_max: usize,
    /// Shortest username accepted
    pub name_min: usize,
    /// Longest username accepted
    pub name_max: usize,
}

/// Whether a length lies within `[min, max]`.
pub open spec fn within(len: nat, min: usize, max: usize) -> bool {
    min <= len && len <= max
}

impl ValidationRules {
    /// Every lower bound lies at or below its upper bound.
    pub open spec fn wf(&self) -> bool {
        self.pass_min <= self.pass_max && self.name_min <= self.name_max
    }

    /// Whether the rules let a username and password of these characters through.
    pub open spec fn admits_spec(&self, username: Seq<char>, password: Seq<char>) -> bool {
        within(username.len(), self.name_min, self.name_max)
            && within(password.len(), self.pass_min, self.pass_max)
    }

    /// Builds the rules from their four bounds; `None` when a lower bound
    /// exceeds its upper bound.
    pub fn new(pass_min: usize, pass_max: usize, name_min: usize, name_max: usize) -> (r: Option<
        ValidationRules,
    >)
        ensures
            r is Some <==> (pass_min <= pass_max && name_min <= name_max),
            r matches Some(v) ==> v.wf() && v.pass_min == pass_min && v.pass_max == pass_max
                && v.name_min == name_min && v.name_max == name_max,
    {
        if pass_min <= pass_max && name_min <= name_max {
            Some(ValidationRules { pass_min, pass_max, name_min, name_max })
        } else {
            None
        }
    }

    /// The rules the service runs with: passwords of 8 to 128 characters,
    /// usernames of 1 to 128.
    pub fn standard() -> (r: ValidationRules)
        ensures
            r.wf(),
            r.pass_min == 8 && r.pass_max == 128,
            r.name_min == 1 && r.name_max == 128,
    {
        ValidationRules { pass_min: 8, pass_max: 128, name_min: 1, name_max: 128 }
    }

    /// Whether `creds` meets every bound.
    pub fn admits(&self, creds: &Credentials) -> (r: bool)
        ensures
            r == self.admits_spec(creds.username@, creds.password@),
    {
        let name_len = creds.username.as_str().unicode_len();
        let pass_len = creds.password.as_str().unicode_len();
        self.name_min <= name_len && name_len <= self.name_max && self.pass_min <= pass_len
            && pass_len <= self.pass_max
    }
}

/// The process-wide service context: the connection pool `P`, the password
/// hasher, and the input rules. Built once at startup and shared by reference.
pub struct Context<P> {
    pool: P,
    hasher: Hasher,
    rules: ValidationRules,
}

impl<P> Context<P> {
    /// The context's rules are well formed: every context meets this.
    #[verifier::type_invariant]
    pub closed spec fn wf(&self) -> bool {
        self.rules.wf()
    }

    /// The rules the context applies.
    pub closed spec fn rules(&self) -> ValidationRules {
        self.rules
    }

    /// The pool the context hands out.
    pub closed spec fn pool(&self) -> P {
        self.pool
    }

    /// Assembles a context from an established pool, a hasher and the rules.
    pub fn new(pool: P, hasher: Hasher, rules: ValidationRules) -> (r: Context<P>)
        requires
            rules.wf(),
        ensures
            r.wf(),
            r.pool() == pool,
            r.rules() == rules,
    {
        Context { pool, hasher, rules }
    }

    /// The connection pool.
    pub fn pool_ref(&self) -> (r: &P)
        ensures
            *r == self.pool(),
    {
        &self.pool
    }

    /// The password hasher.
    pub fn hasher(&self) -> (r: &Hasher) {
        &self.hasher
    }

    /// The input rules.
    pub fn validation_rules(&self) -> (r: ValidationRules)
        ensures
            r == self.rules(),
            r.wf(),
    {
        proof {
            use_type_invariant(self);
        }
        self.rules
    }
}

} // verus!
