//! Policy for the WebAuthn registration ceremony: user verification and the
//! origin policy, which must name exactly one of single origin, all
//! subdomains, or an explicit list of origins.
use vstd::prelude::*;

verus! {

/// User verification policy for WebAuthn authenticators.
#[derive(Clone, Copy, Debug, PartialEq, Eq, Structural)]
pub enum UserVerificationPolicy {
    Required,
    Preferred,
    Discouraged,
}

/// Origin policy as a caller writes it: three optional alternatives, of which
/// exactly one should be set. A field counts as set when it is `Some`,
/// whatever value it holds.
#[derive(Clone, Debug)]
pub struct OriginPolicyInput {
    pub single: Option<bool>,
    pub all_subdomains: Option<bool>,
    pub multiple: Option<Vec<String>>,
}

/// A resolved origin policy: exactly one alternative.
#[derive(Clone, Debug)]
pub enum OriginPolicy {
    Single,
    AllSubdomains,
    Multiple(Vec<String>),
}

/// Options for the WebAuthn registration ceremony.
#[derive(Clone, Debug)]
pub struct AuthenticatorOptions {
    pub user_verification: Option<UserVerificationPolicy>,
    pub origin_policy: Option<OriginPolicyInput>,
}

/// A configuration rejected before any cryptographic work begins.
#[derive(Clone, Copy, Debug, PartialEq, Eq, Structural)]
pub enum ConfigurationError {
    /// No origin policy field was set.
    MissingOriginPolicy,
    /// Two or more origin policy fields were set.
    AmbiguousOriginPolicy,
    /// `autoProceedWithDelay` was chosen without a delay.
    MissingAutoProceedDelay,
}

/// 1 when the field is set, else 0.
pub open spec fn set_count<T>(f: Option<T>) -> nat {
    if f is Some {
        1
    } else {
        0
    }
}

/// How many of the three origin policy fields are set.
pub open spec fn origin_choice_count(p: OriginPolicyInput) -> nat {
    set_count(p.single) + set_count(p.all_subdomains) + set_count(p.multiple)
}

/// The outcome of validating an origin policy input.
pub open spec fn origin_check(p: OriginPolicyInput) -> Result<(), ConfigurationError> {
    if origin_choice_count(p) == 0 {
        Err(ConfigurationError::MissingOriginPolicy)
    } else if origin_choice_count(p) >= 2 {
        Err(ConfigurationError::AmbiguousOriginPolicy)
    } else {
        Ok(())
    }
}

/// The outcome of validating authenticator options. Absent options leave the
/// default policy in force, which is valid.
pub open spec fn options_check(o: AuthenticatorOptions) -> Result<(), ConfigurationError> {
    match o.origin_policy {
        Some(p) => origin_check(p),
        None => Ok(()),
    }
}

/// The input that denotes a resolved policy.
pub open spec fn input_of(p: OriginPolicy) -> OriginPolicyInput {
    match p {
        OriginPolicy::Single => OriginPolicyInput {
            single: Some(true),
            all_subdomains: None,
            multiple: None,
        },
        OriginPolicy::AllSubdomains => OriginPolicyInput {
            single: None,
            all_subdomains: Some(true),
            multiple: None,
        },
        OriginPolicy::Multiple(l) => OriginPolicyInput {
            single: None,
            all_subdomains: None,
            multiple: Some(l),
        },
    }
}

/// The policy that an input with exactly one set field denotes.
pub open spec fn policy_of(p: OriginPolicyInput) -> OriginPolicy {
    if p.single is Some {
        OriginPolicy::Single
    } else if p.all_subdomains is Some {
        OriginPolicy::AllSubdomains
    } else {
        OriginPolicy::Multiple(p.multiple.unwrap())
    }
}


impl OriginPolicyInput {
    /// How many of the three fields are set.
    pub fn choice_count(&self) -> (r: u8)
        ensures
            r as nat == origin_choice_count(*self),
    {
        let single: u8 = if self.single.is_some() {
            1
        } else {
            0
        };
        let all: u8 = if self.all_subdomains.is_some() {
            1
        } else {
            0
        };
        let list: u8 = if self.multiple.is_some() {
            1
        } else {
            0
        };
        single + all + list
    }

    /// Checks that exactly one field is set.
    pub fn validate(&self) -> (r: Result<(), ConfigurationError>)
        ensures
            r == origin_check(*self),
    {
        let n = self.choice_count();
        if n == 0 {
            Err(ConfigurationError::MissingOriginPolicy)
        } else if n >= 2 {
            Err(ConfigurationError::AmbiguousOriginPolicy)
        } else {
            Ok(())
        }
    }

    /// Turns the input into the tagged policy it names, or the reason it names
    /// none or several.
    pub fn resolve(self) -> (r: Result<OriginPolicy, ConfigurationError>)
        ensures
            origin_check(self) is Err ==> r == Err::<OriginPolicy, _>(
                origin_check(self)->Err_0,
            ),
            origin_check(self) is Ok ==> r == Ok::<_, ConfigurationError>(policy_of(self)),
    {
        match self.validate() {
            Err(e) => Err(e),
            Ok(()) => {
                if self.single.is_some() {
                    Ok(OriginPolicy::Single)
                } else if self.all_subdomains.is_some() {
                    Ok(OriginPolicy::AllSubdomains)
                } else {
                    match self.multiple {
                        Some(l) => Ok(OriginPolicy::Multiple(l)),
                        None => Err(ConfigurationError::MissingOriginPolicy),
                    }
                }
            },
        }
    }
}

impl OriginPolicy {
    /// The input form of this policy, with exactly its field set.
    pub fn into_input(self) -> (r: OriginPolicyInput)
        ensures
            r == input_of(self),
    {
        match self {
            OriginPolicy::Single => OriginPolicyInput {
                single: Some(true),
                all_subdomains: None,
                multiple: None,
            },
            OriginPolicy::AllSubdomains => OriginPolicyInput {
                single: None,
                all_subdomains: Some(true),
                multiple: None,
            },
            OriginPolicy::Multiple(l) => OriginPolicyInput {
                single: None,
                all_subdomains: None,
                multiple: Some(l),
            },
        }
    }
}

impl AuthenticatorOptions {
    /// Checks the origin policy, if one is given.
    pub fn validate(&self) -> (r: Result<(), ConfigurationError>)
        ensures
            r == options_check(*self),
    {
        match &self.origin_policy {
            Some(p) => p.validate(),
            None => Ok(()),
        }
    }
}

impl Default for AuthenticatorOptions {
    /// Preferred user verification, origin policy over all subdomains.
    fn default() -> (r: AuthenticatorOptions)
        ensures
            r.user_verification == Some(UserVerificationPolicy::Preferred),
            r.origin_policy == Some(
                OriginPolicyInput { single: None, all_subdomains: Some(true), multiple: None },
            ),
    {
        AuthenticatorOptions {
            user_verification: Some(UserVerificationPolicy::Preferred),
            origin_policy: Some(
                OriginPolicyInput { single: None, all_subdomains: Some(true), multiple: None },
            ),
        }
    }
}

/// Options whose origin policy sets two or more of `single`,
/// `allSubdomains` and `multiple` at once are rejected as ambiguous.
pub proof fn lemma_several_origin_choices_rejected(o: AuthenticatorOptions)
    requires
        o.origin_policy is Some,
        (o.origin_policy->Some_0.single is Some && o.origin_policy->Some_0.all_subdomains is Some)
            || (o.origin_policy->Some_0.single is Some && o.origin_policy->Some_0.multiple is Some)
            || (o.origin_policy->Some_0.all_subdomains is Some
            && o.origin_policy->Some_0.multiple is Some),
    ensures
        options_check(o) == Err::<(), _>(ConfigurationError::AmbiguousOriginPolicy),
{
}

/// Options whose origin policy sets none of the three fields are rejected.
pub proof fn lemma_no_origin_choice_rejected(o: AuthenticatorOptions)
    requires
        o.origin_policy is Some,
        o.origin_policy->Some_0.single is None,
        o.origin_policy->Some_0.all_subdomains is None,
        o.origin_policy->Some_0.multiple is None,
    ensures
        options_check(o) == Err::<(), _>(ConfigurationError::MissingOriginPolicy),
{
}

/// Options with an origin policy are accepted exactly when one of its three
/// fields is set.
pub proof fn lemma_origin_policy_accepted_iff_exactly_one_set(o: AuthenticatorOptions)
    requires
        o.origin_policy is Some,
    ensures
        options_check(o) is Ok <==> origin_choice_count(o.origin_policy->Some_0) == 1,
{
}

/// Every resolved policy, written back as input, validates and resolves to
/// itself.
pub proof fn lemma_policy_round_trip(p: OriginPolicy)
    ensures
        origin_check(input_of(p)) == Ok::<(), ConfigurationError>(()),
        policy_of(input_of(p)) == p,
{
}

} // verus!
