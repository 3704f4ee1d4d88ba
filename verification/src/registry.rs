//! Registry of provider implementations.
//!
//! The registry owns one entry per provider identity and resolves which
//! implementation serves a given agent backend, selected solely by the
//! backend's variant tag. It performs no network calls itself, only
//! dispatch: the resolved entry is an index that the surrounding driver
//! maps to its concrete provider implementation.

use vstd::prelude::*;

use crate::config::{spec_backend_model, AgentBackend, BackendModel, LlmApiProvider};
use crate::errors::ConversationError;

verus! {

/// Identity a provider entry is keyed by: a cloud API provider, or the
/// single on-device provider.
#[derive(Clone, Copy, Debug, PartialEq, Eq, Structural)]
pub enum ProviderKey {
    Cloud(LlmApiProvider),
    OnDevice,
}

/// One registered provider: its identity and the models it supports.
pub struct ProviderEntry {
    pub key: ProviderKey,
    pub models: Vec<String>,
}

/// The key that serves a backend, determined by the backend's variant tag.
pub open spec fn backend_key(b: BackendModel) -> ProviderKey {
    match b {
        BackendModel::Cloud { provider, .. } => ProviderKey::Cloud(provider),
        BackendModel::OnDevice { .. } => ProviderKey::OnDevice,
    }
}

/// The entry list holds a provider keyed for the backend.
pub open spec fn resolves(entries: Seq<ProviderEntry>, b: BackendModel) -> bool {
    exists|i: int| 0 <= i < entries.len() && entries[i].key == backend_key(b)
}

/// A model name is listed among an entry's supported models.
pub open spec fn entry_lists_model(e: ProviderEntry, model: Seq<char>) -> bool {
    exists|j: int| 0 <= j < e.models@.len() && e.models@[j]@ == model
}

/// The entry list holds a provider keyed for the backend that supports the
/// backend's model.
pub open spec fn supports(entries: Seq<ProviderEntry>, b: BackendModel) -> bool {
    exists|i: int|
        0 <= i < entries.len() && entries[i].key == backend_key(b) && entry_lists_model(
            entries[i],
            spec_backend_model(b),
        )
}

/// At most one entry per key: the registry is keyed by provider identity.
pub open spec fn registry_keys_unique(entries: Seq<ProviderEntry>) -> bool {
    forall|i: int, j: int| 0 <= i < j < entries.len() ==> entries[i].key != entries[j].key
}

/// Set of provider entries keyed by provider identity.
pub struct ProviderRegistry {
    entries: Vec<ProviderEntry>,
}

impl View for ProviderRegistry {
    type V = Seq<ProviderEntry>;

    closed spec fn view(&self) -> Seq<ProviderEntry> {
        self.entries@
    }
}

impl ProviderRegistry {
    /// Creates a registry with no providers.
    pub fn new() -> (r: ProviderRegistry)
        ensures
            r@ == Seq::<ProviderEntry>::empty(),
            registry_keys_unique(r@),
    {
        ProviderRegistry { entries: Vec::new() }
    }

    /// Number of registered providers.
    pub fn len(&self) -> (n: usize)
        ensures
            n == self@.len(),
    {
        self.entries.len()
    }

    /// Reads the entry a resolution landed on.
    pub fn entry(&self, i: usize) -> (e: &ProviderEntry)
        requires
            i < self@.len(),
        ensures
            *e == self@[i as int],
    {
        &self.entries[i]
    }

    /// Registers a provider. A key already present is refused, keeping the
    /// registry keyed by identity: the result says whether the entry was
    /// admitted.
    pub fn register(&mut self, e: ProviderEntry) -> (admitted: bool)
        requires
            registry_keys_unique(old(self)@),
        ensures
            registry_keys_unique(final(self)@),
            admitted == !exists|i: int|
                0 <= i < old(self)@.len() && old(self)@[i].key == e.key,
            admitted ==> final(self)@ == old(self)@.push(e),
            !admitted ==> final(self)@ == old(self)@,
    {
        let mut i: usize = 0;
        while i < self.entries.len()
            invariant
                i <= self.entries@.len(),
                registry_keys_unique(old(self)@),
                forall|k: int| 0 <= k < i ==> self.entries@[k].key != e.key,
                *self == *old(self),
            decreases self.entries@.len() - i,
        {
            if self.entries[i].key == e.key {
                proof {
                    assert(self@ == old(self)@);
                    assert(registry_keys_unique(self@));
                }
                return false;
            }
            i = i + 1;
        }
        self.entries.push(e);
        true
    }

    /// Resolves the provider that serves a backend, selected solely by the
    /// backend's variant tag. An unresolved backend is a configuration
    /// error, reported as an unsupported model.
    pub fn resolve(&self, b: &AgentBackend) -> (r: Result<usize, ConversationError>)
        ensures
            r is Ok <==> resolves(self@, b@),
            r matches Ok(i) ==> 0 <= i < self@.len() && self@[i as int].key == backend_key(b@),
            r is Err ==> r == Err::<usize, ConversationError>(
                ConversationError::UnsupportedModel,
            ),
    {
        let key = match b {
            AgentBackend::Cloud { provider, .. } => ProviderKey::Cloud(*provider),
            AgentBackend::OnDevice { .. } => ProviderKey::OnDevice,
        };
        assert(key == backend_key(b@));
        let mut i: usize = 0;
        while i < self.entries.len()
            invariant
                i <= self.entries@.len(),
                key == backend_key(b@),
                forall|k: int| 0 <= k < i ==> self.entries@[k].key != key,
            decreases self.entries@.len() - i,
        {
            if self.entries[i].key == key {
                return Ok(i);
            }
            i = i + 1;
        }
        assert(!resolves(self@, b@));
        Err(ConversationError::UnsupportedModel)
    }

    /// Reports whether some registered provider serves the backend and
    /// supports its model. Consulted at initialisation: a backend this
    /// reports unsupported must never be invoked.
    pub fn backend_supported(&self, b: &AgentBackend) -> (r: bool)
        requires
            registry_keys_unique(self@),
        ensures
            r == supports(self@, b@),
    {
        match self.resolve(b) {
            Err(_) => {
                assert(!supports(self@, b@));
                false
            },
            Ok(i) => {
                let model = crate::config::backend_model_name(b);
                let entry = &self.entries[i];
                let mut j: usize = 0;
                while j < entry.models.len()
                    invariant
                        j <= entry.models@.len(),
                        *entry == self.entries@[i as int],
                        i < self.entries@.len(),
                        self.entries@[i as int].key == backend_key(b@),
                        registry_keys_unique(self@),
                        model@ == spec_backend_model(b@),
                        forall|k: int| 0 <= k < j ==> entry.models@[k]@ != model@,
                    decreases entry.models@.len() - j,
                {
                    if entry.models[j] == model {
                        assert(entry_lists_model(self@[i as int], spec_backend_model(b@)));
                        assert(supports(self@, b@));
                        return true;
                    }
                    j = j + 1;
                }
                assert(!entry_lists_model(self@[i as int], spec_backend_model(b@)));
                assert forall|k: int|
                    0 <= k < self@.len() && self@[k].key == backend_key(b@) implies !entry_lists_model(
                    self@[k],
                    spec_backend_model(b@),
                ) by {
                    assert(k == i as int);
                }
                false
            },
        }
    }
}

} // verus!
