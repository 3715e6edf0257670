use vstd::prelude::*;
use vstd::string::StringExecFns;

use crate::error::InternalError;
use crate::order::{sorted_names, strictly_sorted};

verus! {

/// How to sign users in with one OAuth2 provider.
#[derive(Clone, Debug)]
pub struct AuthProvider {
    pub auth_uri: String,
    pub token_uri: String,
    pub redirect_uri: String,
    pub user_uri: String,
    pub display_name_field: String,
    pub client_id: String,
    pub client_secret: String,
}

impl AuthProvider {
    /// A copy of the provider's settings.
    pub fn duplicate(&self) -> (r: AuthProvider)
        ensures
            r == *self,
    {
        AuthProvider {
            auth_uri: self.auth_uri.clone(),
            token_uri: self.token_uri.clone(),
            redirect_uri: self.redirect_uri.clone(),
            user_uri: self.user_uri.clone(),
            display_name_field: self.display_name_field.clone(),
            client_id: self.client_id.clone(),
            client_secret: self.client_secret.clone(),
        }
    }
}

/// The configured authentication providers, each under a distinct name.
pub struct Secrets {
    auth_provider: Vec<(String, AuthProvider)>,
}

impl View for Secrets {
    type V = Seq<(Seq<char>, AuthProvider)>;

    closed spec fn view(&self) -> Seq<(Seq<char>, AuthProvider)> {
        self.auth_provider@.map_values(|e: (String, AuthProvider)| (e.0@, e.1))
    }
}

/// The message of the error for an unknown provider.
pub open spec fn unknown_provider_message(name: Seq<char>) -> Seq<char> {
    "No provider with name "@ + name + " configured"@
}

impl Secrets {
    pub open spec fn wf(&self) -> bool {
        forall|i: int, j: int| 0 <= i < j < self@.len() ==> self@[i].0 != self@[j].0
    }

    /// No providers.
    pub fn new() -> (r: Secrets)
        ensures
            r@.len() == 0,
            r.wf(),
    {
        let r = Secrets { auth_provider: Vec::new() };
        assert(r@.len() == 0);
        r
    }

    fn position(&self, name: &String) -> (r: Option<usize>)
        ensures
            match r {
                Some(i) => i < self@.len() && self@[i as int].0 == name@,
                None => forall|i: int| 0 <= i < self@.len() ==> self@[i].0 != name@,
            },
    {
        let mut i: usize = 0;
        while i < self.auth_provider.len()
            invariant
                i <= self.auth_provider@.len(),
                self@.len() == self.auth_provider@.len(),
                forall|j: int| 0 <= j < i ==> self@[j].0 != name@,
            decreases self.auth_provider@.len() - i,
        {
            if self.auth_provider[i].0 == *name {
                return Some(i);
            }
            i = i + 1;
        }
        None
    }

    /// Configures `provider` under `name`, replacing an earlier one of that name.
    pub fn add_auth_provider(&mut self, name: String, provider: AuthProvider)
        requires
            old(self).wf(),
        ensures
            final(self).wf(),
            forall|i: int| 0 <= i < old(self)@.len() && old(self)@[i].0 == name@
                ==> final(self)@ == old(self)@.update(i, (name@, provider)),
            (forall|i: int| 0 <= i < old(self)@.len() ==> old(self)@[i].0 != name@)
                ==> final(self)@ == old(self)@.push((name@, provider)),
    {
        let ghost before = self@;
        match self.position(&name) {
            Some(i) => {
                self.auth_provider[i] = (name, provider);
                assert(self@ =~= before.update(i as int, (self@[i as int].0, provider)));
                assert forall|j: int| 0 <= j < before.len() && before[j].0 == self@[i as int].0
                    implies j == i by {
                    if j != i {
                        assert(before[j].0 != before[i as int].0);
                    }
                }
            },
            None => {
                self.auth_provider.push((name, provider));
                assert(self@ =~= before.push((self@.last().0, provider)));
            },
        }
    }

    /// The names of the configured providers, in lexicographic order.
    pub fn get_auth_provider_names(&self) -> (r: Vec<String>)
        requires
            self.wf(),
        ensures
            r@.len() == self@.len(),
            strictly_sorted(r@.map_values(|s: String| s@)),
            forall|i: int| 0 <= i < self@.len() ==> r@.map_values(|s: String| s@).contains(
                self@[i].0,
            ),
    {
        let mut names: Vec<String> = Vec::new();
        let mut i: usize = 0;
        while i < self.auth_provider.len()
            invariant
                i <= self.auth_provider@.len(),
                self@.len() == self.auth_provider@.len(),
                names@.len() == i,
                forall|j: int| 0 <= j < i ==> names@[j]@ == self@[j].0,
            decreases self.auth_provider@.len() - i,
        {
            names.push(self.auth_provider[i].0.clone());
            i = i + 1;
        }
        sorted_names(&names)
    }

    /// The settings of the provider called `provider_name`; an error when none is
    /// configured under that name.
    pub fn get_auth_provider(&self, provider_name: &str) -> (r: Result<AuthProvider, InternalError>)
        requires
            self.wf(),
        ensures
            forall|i: int| 0 <= i < self@.len() && self@[i].0 == provider_name@
                ==> r == Ok::<AuthProvider, InternalError>(self@[i].1),
            (forall|i: int| 0 <= i < self@.len() ==> self@[i].0 != provider_name@) ==> (r matches Err(
                e,
            ) && e.message@ == unknown_provider_message(provider_name@)),
    {
        let key = String::from_str(provider_name);
        match self.position(&key) {
            Some(i) => {
                assert forall|j: int| 0 <= j < self@.len() && self@[j].0 == provider_name@
                    implies j == i by {
                    if j != i {
                        assert(self@[j].0 != self@[i as int].0);
                    }
                }
                Ok(self.auth_provider[i].1.duplicate())
            },
            None => {
                let message = String::from_str("No provider with name ").concat(provider_name).concat(
                    " configured",
                );
                Err(InternalError::new(message))
            },
        }
    }
}

} // verus!
