//! The artifact registry: an explicitly constructed, immutable mapping from
//! source artifact identifiers to the locations they are retrieved from.
//! It is built once, handed to the pipeline, and never mutated, so
//! concurrent requests may read it freely. A name absent from the registry
//! is a fatal `UnknownArtifact`: retrying cannot fix a registry miss.

use vstd::prelude::*;
use crate::model::SourceName;

verus! {

/// One registry row: a source artifact and where to retrieve it from.
#[derive(Clone, Debug, PartialEq, Eq)]
pub struct RegistryEntry {
    pub name: SourceName,
    pub url: String,
}

/// The registry itself. Its abstract value is a map from source names to
/// retrieval locations; when a name occurs twice, the earlier row wins,
/// matching what [`ArtifactRegistry::lookup`] returns.
#[derive(Clone, Debug, PartialEq, Eq)]
pub struct ArtifactRegistry {
    pub entries: Vec<RegistryEntry>,
}

/// The map described by a sequence of rows, earlier rows taking precedence.
pub open spec fn registry_map(entries: Seq<RegistryEntry>) -> Map<SourceName, Seq<char>>
    decreases entries.len(),
{
    if entries.len() == 0 {
        Map::empty()
    } else {
        registry_map(entries.drop_first()).insert(entries.first().name, entries.first().url@)
    }
}

impl View for ArtifactRegistry {
    type V = Map<SourceName, Seq<char>>;

    open spec fn view(&self) -> Map<SourceName, Seq<char>> {
        registry_map(self.entries@)
    }
}

/// A key is in the map of a row sequence exactly when some row carries it.
proof fn lemma_registry_map_contains(entries: Seq<RegistryEntry>, name: SourceName)
    ensures
        registry_map(entries).contains_key(name) <==> exists|i: int|
            0 <= i < entries.len() && entries[i].name == name,
    decreases entries.len(),
{
    if entries.len() > 0 {
        lemma_registry_map_contains(entries.drop_first(), name);
        if entries.first().name != name {
            if registry_map(entries).contains_key(name) {
                let j = choose|j: int|
                    0 <= j < entries.drop_first().len() && entries.drop_first()[j].name == name;
                assert(entries[j + 1].name == name);
            }
            if exists|i: int| 0 <= i < entries.len() && entries[i].name == name {
                let i = choose|i: int| 0 <= i < entries.len() && entries[i].name == name;
                assert(entries.drop_first()[i - 1].name == name);
            }
        }
    }
}

/// The map agrees with the first row that carries the key.
proof fn lemma_registry_map_first(entries: Seq<RegistryEntry>, k: int)
    requires
        0 <= k < entries.len(),
        forall|j: int| 0 <= j < k ==> entries[j].name != entries[k].name,
    ensures
        registry_map(entries).contains_key(entries[k].name),
        registry_map(entries)[entries[k].name] == entries[k].url@,
    decreases entries.len(),
{
    if k > 0 {
        assert(entries.drop_first()[k - 1] == entries[k]);
        lemma_registry_map_first(entries.drop_first(), k - 1);
    }
}

impl ArtifactRegistry {
    /// Wraps an explicit row list into a registry.
    pub fn new(entries: Vec<RegistryEntry>) -> (r: ArtifactRegistry)
        ensures
            r@ == registry_map(entries@),
    {
        ArtifactRegistry { entries }
    }

    /// Where `name` is retrieved from, if the registry knows it at all.
    pub fn lookup(&self, name: SourceName) -> (r: Option<String>)
        ensures
            r is Some <==> self@.contains_key(name),
            r matches Some(url) ==> url@ == self@[name],
    {
        let n = self.entries.len();
        let mut i: usize = 0;
        while i < n
            invariant
                n == self.entries.len(),
                0 <= i <= n,
                forall|j: int| 0 <= j < i ==> self.entries[j].name != name,
            decreases n - i,
        {
            if self.entries[i].name == name {
                proof {
                    lemma_registry_map_first(self.entries@, i as int);
                }
                return Some(self.entries[i].url.clone());
            }
            i += 1;
        }
        proof {
            lemma_registry_map_contains(self.entries@, name);
        }
        None
    }

    /// The fixed seed catalogue the service starts with. The base and chat
    /// variants of the 7b model are retrievable; the Chinese variant is
    /// deliberately not listed, so asking for it is a registry miss.
    pub fn defaults() -> (r: ArtifactRegistry)
        ensures
            r@ == Map::<SourceName, Seq<char>>::empty().insert(
                SourceName::Llama2_7b,
                "https://huggingface.co/meta-llama/Llama-2-7b-hf"@,
            ).insert(
                SourceName::Llama2Chat7b,
                "https://huggingface.co/meta-llama/Llama-2-7b-chat-hf"@,
            ),
    {
        let mut entries: Vec<RegistryEntry> = Vec::new();
        entries.push(
            RegistryEntry {
                name: SourceName::Llama2_7b,
                url: "https://huggingface.co/meta-llama/Llama-2-7b-hf".to_owned(),
            },
        );
        entries.push(
            RegistryEntry {
                name: SourceName::Llama2Chat7b,
                url: "https://huggingface.co/meta-llama/Llama-2-7b-chat-hf".to_owned(),
            },
        );
        let ghost rows = entries@;
        let r = ArtifactRegistry::new(entries);
        proof {
            reveal_with_fuel(registry_map, 4);
            assert(rows.drop_first().drop_first() =~= Seq::<RegistryEntry>::empty());
            assert(r@ == registry_map(rows));
            assert(r@ =~= Map::<SourceName, Seq<char>>::empty().insert(
                SourceName::Llama2_7b,
                "https://huggingface.co/meta-llama/Llama-2-7b-hf"@,
            ).insert(
                SourceName::Llama2Chat7b,
                "https://huggingface.co/meta-llama/Llama-2-7b-chat-hf"@,
            ));
        }
        r
    }
}

} // verus!
