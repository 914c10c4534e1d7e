//! Request identities.

use vstd::prelude::*;

verus! {

/// The identity of one request: the name that the runtime routes by, and the
/// name that the client sees.
#[derive(Debug)]
pub struct Rid {
    internal: String,
    public: String,
}

/// What a [`Rid`] means.
#[verifier::ext_equal]
pub struct RidModel {
    pub internal: Seq<char>,
    pub public: Seq<char>,
}

impl View for Rid {
    type V = RidModel;

    closed spec fn view(&self) -> RidModel {
        RidModel { internal: self.internal@, public: self.public@ }
    }
}

impl RidModel {
    /// One name for both sides.
    pub open spec fn same(name: Seq<char>) -> Self {
        RidModel { internal: name, public: name }
    }

    /// The identity of a health probe.
    pub open spec fn health_check(minted: Seq<char>) -> Self {
        RidModel::same("HEALTH_CHECK_"@ + minted)
    }
}

impl Rid {
    /// An identity that was minted here, or that a caller inside the process
    /// chose: clients see the same name.
    pub fn from_name(name: &str) -> (rid: Self)
        ensures
            rid@ == RidModel::same(name@),
    {
        Rid { internal: name.to_owned(), public: name.to_owned() }
    }

    /// An identity under which a client chose to see its request. Inside, the
    /// request goes by the minted name, so that two clients cannot collide.
    pub fn from_client(name: &str, minted: &str) -> (rid: Self)
        ensures
            rid@ == (RidModel { internal: minted@, public: name@ }),
    {
        Rid { internal: minted.to_owned(), public: name.to_owned() }
    }

    /// The identity of a health probe.
    pub fn new_health_check(minted: &str) -> (rid: Self)
        ensures
            rid@ == RidModel::health_check(minted@),
    {
        let name = crate::text::concat2("HEALTH_CHECK_", minted);
        Rid::from_name(name.as_str())
    }

    /// The name that the runtime routes by.
    pub fn as_str(&self) -> (name: &str)
        ensures
            name@ == self@.internal,
    {
        self.internal.as_str()
    }

    /// The name that the client sees.
    pub fn client_facing(&self) -> (name: &str)
        ensures
            name@ == self@.public,
    {
        self.public.as_str()
    }
}

impl Clone for Rid {
    fn clone(&self) -> (copy: Self)
        ensures
            copy@ == self@,
            copy == *self,
    {
        Rid { internal: self.internal.clone(), public: self.public.clone() }
    }
}

/// A name of its own is used on both sides, and a probe's name is marked as such.
pub proof fn law_names(name: Seq<char>)
    ensures
        RidModel::same(name).internal == name,
        RidModel::same(name).public == name,
        RidModel::health_check(name).internal == "HEALTH_CHECK_"@ + name,
        RidModel::health_check(name).public == "HEALTH_CHECK_"@ + name,
{
}

} // verus!
