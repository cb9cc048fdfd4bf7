//! The circuit registry: bytecode and verification key per circuit id, plus
//! the canonical descriptor list, and the parsing of a compiled circuit
//! artifact's `bytecode` field.

use vstd::pervasive::VecAdditionalExecFns;
use vstd::prelude::*;
use vstd::string::StringExecFns;

use crate::strutil::concat2;
use crate::types::{
    ca_info_view, cca_info_view, is_ca_info, is_cca_info, CircuitInfo, CircuitInfoView,
};

verus! {

/// The mathematical content of a [`CircuitData`].
pub ghost struct CircuitDataView {
    pub bytecode: Seq<char>,
    pub vk: Seq<u8>,
}

/// Holds the compiled bytecode and verification key for a single circuit.
#[derive(Debug)]
pub struct CircuitData {
    pub bytecode: String,
    pub vk: Vec<u8>,
}

impl View for CircuitData {
    type V = CircuitDataView;

    open spec fn view(&self) -> CircuitDataView {
        CircuitDataView { bytecode: self.bytecode@, vk: self.vk@ }
    }
}

impl Clone for CircuitData {
    fn clone(&self) -> (res: Self)
        ensures
            res@ == self@,
    {
        CircuitData { bytecode: self.bytecode.clone(), vk: clone_byte_vec(&self.vk) }
    }
}

/// Clones a byte vector.
pub fn clone_byte_vec(v: &Vec<u8>) -> (res: Vec<u8>)
    ensures
        res@ == v@,
{
    let mut res: Vec<u8> = Vec::new();
    let len = v.len();
    let mut i: usize = 0;
    while i < len
        invariant
            len == v@.len(),
            i <= len,
            res@ == v@.subrange(0, i as int),
        decreases len - i,
    {
        res.push(v[i]);
        proof {
            assert(res@ =~= v@.subrange(0, i + 1));
        }
        i = i + 1;
    }
    proof {
        assert(v@.subrange(0, len as int) =~= v@);
    }
    res
}

/// One circuit that finished loading: its id and its artifacts.
pub struct LoadedCircuit {
    pub id: String,
    pub data: CircuitData,
}

/// Some element of `loaded` carries this id.
pub open spec fn loaded_has(loaded: Seq<LoadedCircuit>, id: Seq<char>) -> bool {
    exists|k: int| 0 <= k < loaded.len() && (#[trigger] loaded[k].id@) == id
}

/// `d` is the artifact content of the last element of `loaded` with this id.
pub open spec fn latest_data(loaded: Seq<LoadedCircuit>, id: Seq<char>, d: CircuitDataView) -> bool {
    exists|k: int|
        0 <= k < loaded.len() && (#[trigger] loaded[k].id@) == id && loaded[k].data@ == d && (
        forall|k2: int| k < k2 < loaded.len() ==> loaded[k2].id@ != id)
}

/// No id occurs twice in `loaded`.
pub open spec fn distinct_ids(loaded: Seq<LoadedCircuit>) -> bool {
    forall|k1: int, k2: int| 0 <= k1 < k2 < loaded.len() ==> loaded[k1].id@ != loaded[k2].id@
}

struct DataEntry {
    id: String,
    data: CircuitData,
}

struct InfoEntry {
    id: String,
    info: CircuitInfo,
}

spec fn has_entry(s: Seq<DataEntry>, id: Seq<char>) -> bool {
    exists|j: int| 0 <= j < s.len() && (#[trigger] s[j].id@) == id
}

/// Registry of all loaded circuits, keyed by canonical circuit ID.
pub struct CircuitRegistry {
    circuits: Vec<DataEntry>,
    metadata: Vec<InfoEntry>,
}

/// Circuit metadata definitions for the two canonical circuits.
pub fn circuit_metadata() -> (r: Vec<CircuitInfo>)
    ensures
        r@.len() == 2,
        is_ca_info(r@[0]@),
        is_cca_info(r@[1]@),
{
    let mut ca_inputs: Vec<String> = Vec::new();
    ca_inputs.push(String::from_str("signal_hash"));
    ca_inputs.push(String::from_str("signer_list_merkle_root"));
    ca_inputs.push(String::from_str("user_address"));
    ca_inputs.push(String::from_str("user_signature"));
    ca_inputs.push(String::from_str("user_pubkey_x"));
    ca_inputs.push(String::from_str("user_pubkey_y"));
    ca_inputs.push(String::from_str("raw_transaction"));
    ca_inputs.push(String::from_str("tx_length"));
    ca_inputs.push(String::from_str("coinbase_attester_pubkey_x"));
    ca_inputs.push(String::from_str("coinbase_attester_pubkey_y"));
    ca_inputs.push(String::from_str("coinbase_signer_merkle_proof"));
    ca_inputs.push(String::from_str("coinbase_signer_leaf_index"));
    ca_inputs.push(String::from_str("merkle_proof_depth"));
    proof {
        assert(ca_inputs.deep_view() =~= crate::types::ca_required_inputs());
    }
    let mut cca_inputs = crate::types::clone_string_vec(&ca_inputs);
    cca_inputs.push(String::from_str("country_list"));
    cca_inputs.push(String::from_str("is_included"));
    proof {
        assert(cca_inputs.deep_view() =~= crate::types::cca_required_inputs());
    }
    let ca = CircuitInfo {
        id: String::from_str("coinbase_attestation"),
        display_name: String::from_str("Coinbase KYC"),
        description: String::from_str("Prove Coinbase KYC attestation without revealing identity"),
        required_inputs: ca_inputs,
        input_count: 899,
    };
    let cca = CircuitInfo {
        id: String::from_str("coinbase_country_attestation"),
        display_name: String::from_str("Coinbase Country"),
        description: String::from_str(
            "Prove country attestation from Coinbase without revealing country",
        ),
        required_inputs: cca_inputs,
        input_count: 921,
    };
    let mut r: Vec<CircuitInfo> = Vec::new();
    r.push(ca);
    r.push(cca);
    r
}

impl CircuitRegistry {
    /// Whether a circuit with this id is loaded.
    pub closed spec fn spec_contains(self, id: Seq<char>) -> bool {
        has_entry(self.circuits@, id)
    }

    /// The artifacts stored for a loaded id.
    pub closed spec fn spec_data(self, id: Seq<char>) -> CircuitDataView {
        self.circuits@[choose|i: int|
            0 <= i < self.circuits@.len() && self.circuits@[i].id@ == id].data@
    }

    /// How many circuits are loaded.
    pub closed spec fn spec_len(self) -> nat {
        self.circuits@.len()
    }

    /// The stored descriptors, in storage order.
    pub closed spec fn spec_infos(self) -> Seq<CircuitInfoView> {
        Seq::new(self.metadata@.len(), |i: int| self.metadata@[i].info@)
    }

    /// Ids are unique, and every descriptor belongs to a loaded circuit and
    /// carries that circuit's id.
    pub closed spec fn wf(self) -> bool {
        &&& forall|i: int, j: int|
            0 <= i < j < self.circuits@.len() ==> self.circuits@[i].id@ != self.circuits@[j].id@
        &&& forall|i: int, j: int|
            0 <= i < j < self.metadata@.len() ==> self.metadata@[i].id@ != self.metadata@[j].id@
        &&& forall|i: int|
            0 <= i < self.metadata@.len() ==> #[trigger] self.metadata@[i].info.id@
                == self.metadata@[i].id@ && self.spec_contains(self.metadata@[i].id@)
    }

    /// Create an empty registry (for testing).
    pub fn empty() -> (r: Self)
        ensures
            r.wf(),
            r.spec_len() == 0,
            r.spec_infos().len() == 0,
            forall|id: Seq<char>| !r.spec_contains(id),
    {
        CircuitRegistry { circuits: Vec::new(), metadata: Vec::new() }
    }

    /// Get circuit data by canonical ID.
    pub fn get(&self, circuit_id: &str) -> (r: Result<&CircuitData, String>)
        requires
            self.wf(),
        ensures
            r is Ok <==> self.spec_contains(circuit_id@),
            r matches Ok(d) ==> d@ == self.spec_data(circuit_id@),
            r matches Err(e) ==> e@ == "Circuit not found: "@ + circuit_id@,
    {
        let key: String = circuit_id.to_owned();
        let len = self.circuits.len();
        let mut i: usize = 0;
        while i < len
            invariant
                self.wf(),
                key@ == circuit_id@,
                len == self.circuits@.len(),
                i <= len,
                forall|k: int| 0 <= k < i ==> self.circuits@[k].id@ != circuit_id@,
            decreases len - i,
        {
            if self.circuits[i].id == key {
                proof {
                    assert(self.spec_contains(circuit_id@));
                    let j = choose|j: int|
                        0 <= j < self.circuits@.len() && self.circuits@[j].id@ == circuit_id@;
                    assert(j == i as int);
                }
                return Ok(&self.circuits[i].data);
            }
            i = i + 1;
        }
        proof {
            if self.spec_contains(circuit_id@) {
                let j = choose|j: int|
                    0 <= j < self.circuits@.len() && (#[trigger] self.circuits@[j].id@)
                        == circuit_id@;
                assert(false);
            }
        }
        Err(concat2("Circuit not found: ", circuit_id))
    }

    /// Get metadata for all loaded circuits.
    pub fn list_circuits(&self) -> (r: Vec<CircuitInfo>)
        ensures
            r.deep_view() == self.spec_infos(),
    {
        let mut r: Vec<CircuitInfo> = Vec::new();
        let len = self.metadata.len();
        let mut i: usize = 0;
        while i < len
            invariant
                len == self.metadata@.len(),
                i <= len,
                r.deep_view() == self.spec_infos().subrange(0, i as int),
            decreases len - i,
        {
            let info_c = self.metadata[i].info.clone();
            let ghost prev = r.deep_view();
            let ghost prev_vec = r@;
            r.push(info_c);
            proof {
                assert(prev.len() == i as int);
                assert(prev.len() == prev_vec.len());
                assert(r@ == prev_vec.push(info_c));
                assert forall|k: int| 0 <= k < i + 1 implies r.deep_view()[k]
                    == self.spec_infos()[k] by {
                    if k < i {
                        assert(r@[k] == prev_vec[k]);
                        assert(prev[k] == self.spec_infos().subrange(0, i as int)[k]);
                    } else {
                        assert(r@[k] == info_c);
                        assert(info_c@ == self.metadata@[i as int].info@);
                    }
                }
                assert(r.deep_view() =~= self.spec_infos().subrange(0, i + 1));
            }
            i = i + 1;
        }
        proof {
            assert(self.spec_infos().subrange(0, len as int) =~= self.spec_infos());
        }
        r
    }

    /// Get the count of loaded circuits.
    pub fn len(&self) -> (n: usize)
        ensures
            n == self.spec_len(),
    {
        self.circuits.len()
    }

    /// Whether no circuit is loaded.
    pub fn is_empty(&self) -> (b: bool)
        ensures
            b == (self.spec_len() == 0),
    {
        self.circuits.is_empty()
    }

    /// Build a registry from the circuits that finished loading, attaching
    /// the canonical descriptor of each loaded id.  A repeated id keeps the
    /// artifacts of its last occurrence, as a keyed store would.
    pub fn from_loaded(loaded: &Vec<LoadedCircuit>) -> (r: Self)
        ensures
            r.wf(),
            forall|id: Seq<char>| #[trigger] r.spec_contains(id) <==> loaded_has(loaded@, id),
            forall|id: Seq<char>|
                r.spec_contains(id) ==> latest_data(loaded@, id, #[trigger] r.spec_data(id)),
            distinct_ids(loaded@) ==> r.spec_len() == loaded@.len(),
            r.spec_infos() == (if r.spec_contains("coinbase_attestation"@) {
                seq![ca_info_view()]
            } else {
                Seq::<CircuitInfoView>::empty()
            }) + (if r.spec_contains("coinbase_country_attestation"@) {
                seq![cca_info_view()]
            } else {
                Seq::<CircuitInfoView>::empty()
            }),
    {
        let mut circuits: Vec<DataEntry> = Vec::new();
        let n = loaded.len();
        let mut i: usize = 0;
        while i < n
            invariant
                n == loaded@.len(),
                i <= n,
                forall|a: int, b: int|
                    0 <= a < b < circuits@.len() ==> circuits@[a].id@ != circuits@[b].id@,
                forall|j: int|
                    0 <= j < circuits@.len() ==> latest_data(
                        loaded@.subrange(0, i as int),
                        (#[trigger] circuits@[j]).id@,
                        circuits@[j].data@,
                    ),
                forall|id: Seq<char>|
                    #[trigger] loaded_has(loaded@.subrange(0, i as int), id) ==> has_entry(
                        circuits@,
                        id,
                    ),
                distinct_ids(loaded@.subrange(0, i as int)) ==> circuits@.len() == i,
            decreases n - i,
        {
            let ghost prefix = loaded@.subrange(0, i as int);
            let ghost prefix1 = loaded@.subrange(0, i + 1);
            proof {
                assert(prefix1.drop_last() =~= prefix);
                assert(prefix1.last() == loaded@[i as int]);
            }
            let id = loaded[i].id.clone();
            let data = loaded[i].data.clone();
            let found = find_index(&circuits, &id);
            let ghost old_circuits = circuits@;
            match found {
                Some(j) => {
                    circuits.set(j, DataEntry { id, data });
                    proof {
                        lemma_step_preserves(old_circuits, circuits@, prefix, prefix1, j as int);
                        if distinct_ids(prefix1) {
                            assert(latest_data(
                                prefix,
                                old_circuits[j as int].id@,
                                old_circuits[j as int].data@,
                            ));
                            let ghost oc = old_circuits[j as int];
                            let k = choose|k: int|
                                0 <= k < prefix.len() && (#[trigger] prefix[k].id@) == oc.id@
                                    && prefix[k].data@ == oc.data@ && (forall|k2: int|
                                    k < k2 < prefix.len() ==> prefix[k2].id@ != oc.id@);
                            assert(prefix1[k] == prefix[k]);
                            assert(prefix1[k].id@ == prefix1[prefix1.len() - 1].id@);
                            assert(false);
                        }
                    }
                },
                None => {
                    circuits.push(DataEntry { id, data });
                    proof {
                        lemma_step_preserves(
                            old_circuits,
                            circuits@,
                            prefix,
                            prefix1,
                            old_circuits.len() as int,
                        );
                        if distinct_ids(prefix1) {
                            assert forall|k1: int, k2: int|
                                0 <= k1 < k2 < prefix.len() implies prefix[k1].id@
                                != prefix[k2].id@ by {
                                assert(prefix1[k1] == prefix[k1]);
                                assert(prefix1[k2] == prefix[k2]);
                            }
                            assert(distinct_ids(prefix));
                        }
                    }
                },
            }
            i = i + 1;
        }
        proof {
            assert(loaded@.subrange(0, n as int) =~= loaded@);
        }
        let metas = circuit_metadata();
        let mut metadata: Vec<InfoEntry> = Vec::new();
        let info0 = metas[0].clone();
        let id0 = info0.id.clone();
        let f0 = find_index(&circuits, &id0);
        if f0.is_some() {
            proof {
                assert(f0 matches Some(j) ==> circuits@[j as int].id@ == id0@);
                assert(has_entry(circuits@, id0@));
            }
            metadata.push(InfoEntry { id: id0, info: info0 });
        } else {
            proof {
                assert(!has_entry(circuits@, id0@));
            }
        }
        let info1 = metas[1].clone();
        let id1 = info1.id.clone();
        let f1 = find_index(&circuits, &id1);
        if f1.is_some() {
            proof {
                assert(f1 matches Some(j) ==> circuits@[j as int].id@ == id1@);
                assert(has_entry(circuits@, id1@));
            }
            metadata.push(InfoEntry { id: id1, info: info1 });
        } else {
            proof {
                assert(!has_entry(circuits@, id1@));
            }
        }
        let r = CircuitRegistry { circuits, metadata };
        proof {
            reveal_strlit("coinbase_attestation");
            reveal_strlit("coinbase_country_attestation");
            assert(id0@ == "coinbase_attestation"@);
            assert(id1@ == "coinbase_country_attestation"@);
            assert(id0@ != id1@);
            assert forall|id: Seq<char>| #[trigger] r.spec_contains(id) implies latest_data(
                loaded@,
                id,
                r.spec_data(id),
            ) by {
                let j = choose|j: int|
                    0 <= j < r.circuits@.len() && (#[trigger] r.circuits@[j].id@) == id;
                let jj = choose|i: int|
                    0 <= i < r.circuits@.len() && r.circuits@[i].id@ == id;
                assert(r.circuits@[jj].id@ == id);
                assert(jj == j);
            }
            assert(r.spec_infos() =~= (if r.spec_contains("coinbase_attestation"@) {
                seq![ca_info_view()]
            } else {
                Seq::<CircuitInfoView>::empty()
            }) + (if r.spec_contains("coinbase_country_attestation"@) {
                seq![cca_info_view()]
            } else {
                Seq::<CircuitInfoView>::empty()
            }));
        }
        r
    }

    /// Create a registry with mock data (for testing the transport layer).
    pub fn mock() -> (r: Self)
        ensures
            r.wf(),
            r.spec_len() == 2,
            r.spec_contains("coinbase_attestation"@),
            r.spec_contains("coinbase_country_attestation"@),
            forall|id: Seq<char>|
                #[trigger] r.spec_contains(id) ==> id == "coinbase_attestation"@ || id
                    == "coinbase_country_attestation"@,
            r.spec_data("coinbase_attestation"@) == (CircuitDataView {
                bytecode: "mock_bytecode_ca"@,
                vk: seq![1u8, 2u8, 3u8, 4u8],
            }),
            r.spec_data("coinbase_country_attestation"@) == (CircuitDataView {
                bytecode: "mock_bytecode_cca"@,
                vk: seq![5u8, 6u8, 7u8, 8u8],
            }),
            r.spec_infos() == seq![ca_info_view(), cca_info_view()],
    {
        let mut vk_ca: Vec<u8> = Vec::new();
        vk_ca.push(1);
        vk_ca.push(2);
        vk_ca.push(3);
        vk_ca.push(4);
        proof {
            assert(vk_ca@ =~= seq![1u8, 2u8, 3u8, 4u8]);
        }
        let mut vk_cca: Vec<u8> = Vec::new();
        vk_cca.push(5);
        vk_cca.push(6);
        vk_cca.push(7);
        vk_cca.push(8);
        proof {
            assert(vk_cca@ =~= seq![5u8, 6u8, 7u8, 8u8]);
        }
        let mut loaded: Vec<LoadedCircuit> = Vec::new();
        loaded.push(
            LoadedCircuit {
                id: String::from_str("coinbase_attestation"),
                data: CircuitData { bytecode: String::from_str("mock_bytecode_ca"), vk: vk_ca },
            },
        );
        loaded.push(
            LoadedCircuit {
                id: String::from_str("coinbase_country_attestation"),
                data: CircuitData { bytecode: String::from_str("mock_bytecode_cca"), vk: vk_cca },
            },
        );
        let r = Self::from_loaded(&loaded);
        proof {
            reveal_strlit("coinbase_attestation");
            reveal_strlit("coinbase_country_attestation");
            assert(loaded@[0].id@ == "coinbase_attestation"@);
            assert(loaded@[1].id@ == "coinbase_country_attestation"@);
            assert(r.spec_contains("coinbase_attestation"@));
            assert(r.spec_contains("coinbase_country_attestation"@));
            assert forall|id: Seq<char>| #[trigger] r.spec_contains(id) implies id
                == "coinbase_attestation"@ || id == "coinbase_country_attestation"@ by {
                let k = choose|k: int|
                    0 <= k < loaded@.len() && (#[trigger] loaded@[k].id@) == id;
                assert(k == 0 || k == 1);
            }
            assert(latest_data(loaded@, "coinbase_attestation"@, r.spec_data(
                "coinbase_attestation"@,
            )));
            let k0 = choose|k: int|
                0 <= k < loaded@.len() && (#[trigger] loaded@[k].id@) == "coinbase_attestation"@
                    && loaded@[k].data@ == r.spec_data("coinbase_attestation"@) && (forall|k2: int|
                    k < k2 < loaded@.len() ==> loaded@[k2].id@ != "coinbase_attestation"@);
            assert(k0 == 0);
            assert(latest_data(loaded@, "coinbase_country_attestation"@, r.spec_data(
                "coinbase_country_attestation"@,
            )));
            let k1 = choose|k: int|
                0 <= k < loaded@.len() && (#[trigger] loaded@[k].id@)
                    == "coinbase_country_attestation"@ && loaded@[k].data@ == r.spec_data(
                    "coinbase_country_attestation"@,
                ) && (forall|k2: int|
                    k < k2 < loaded@.len() ==> loaded@[k2].id@ != "coinbase_country_attestation"@);
            assert(k1 == 1);
            assert(distinct_ids(loaded@));
            assert(r.spec_len() == 2);
        }
        r
    }
}

proof fn lemma_step_preserves(
    old_circuits: Seq<DataEntry>,
    new_circuits: Seq<DataEntry>,
    prefix: Seq<LoadedCircuit>,
    prefix1: Seq<LoadedCircuit>,
    j: int,
)
    requires
        prefix1.len() == prefix.len() + 1,
        prefix1.drop_last() == prefix,
        0 <= j <= old_circuits.len(),
        j < new_circuits.len(),
        new_circuits.len() == if j < old_circuits.len() {
            old_circuits.len()
        } else {
            old_circuits.len() + 1
        },
        forall|k: int| 0 <= k < new_circuits.len() && k != j ==> new_circuits[k] == old_circuits[k],
        new_circuits[j].id@ == prefix1.last().id@,
        new_circuits[j].data@ == prefix1.last().data@,
        j < old_circuits.len() ==> old_circuits[j].id@ == prefix1.last().id@,
        j == old_circuits.len() ==> forall|k: int|
            0 <= k < old_circuits.len() ==> old_circuits[k].id@ != prefix1.last().id@,
        forall|a: int, b: int|
            0 <= a < b < old_circuits.len() ==> old_circuits[a].id@ != old_circuits[b].id@,
        forall|jj: int|
            0 <= jj < old_circuits.len() ==> latest_data(
                prefix,
                (#[trigger] old_circuits[jj]).id@,
                old_circuits[jj].data@,
            ),
        forall|id: Seq<char>|
            #[trigger] loaded_has(prefix, id) ==> has_entry(old_circuits, id),
    ensures
        forall|a: int, b: int|
            0 <= a < b < new_circuits.len() ==> new_circuits[a].id@ != new_circuits[b].id@,
        forall|jj: int|
            0 <= jj < new_circuits.len() ==> latest_data(
                prefix1,
                (#[trigger] new_circuits[jj]).id@,
                new_circuits[jj].data@,
            ),
        forall|id: Seq<char>| #[trigger] loaded_has(prefix1, id) ==> has_entry(new_circuits, id),
{
    let last = prefix1.last();
    assert forall|a: int, b: int| 0 <= a < b < new_circuits.len() implies new_circuits[a].id@
        != new_circuits[b].id@ by {
        if a != j && b != j {
            assert(new_circuits[a] == old_circuits[a]);
            assert(new_circuits[b] == old_circuits[b]);
        } else if a == j && b != j {
            assert(new_circuits[b] == old_circuits[b]);
        } else if b == j && a != j {
            assert(new_circuits[a] == old_circuits[a]);
        }
    }
    assert forall|jj: int| 0 <= jj < new_circuits.len() implies latest_data(
        prefix1,
        (#[trigger] new_circuits[jj]).id@,
        new_circuits[jj].data@,
    ) by {
        if jj == j {
            assert(prefix1[prefix1.len() - 1] == last);
            assert(latest_data(prefix1, new_circuits[j].id@, new_circuits[j].data@));
        } else {
            assert(new_circuits[jj] == old_circuits[jj]);
            assert(latest_data(prefix, old_circuits[jj].id@, old_circuits[jj].data@));
            let k = choose|k: int|
                0 <= k < prefix.len() && (#[trigger] prefix[k].id@) == old_circuits[jj].id@
                    && prefix[k].data@ == old_circuits[jj].data@ && (forall|k2: int|
                    k < k2 < prefix.len() ==> prefix[k2].id@ != old_circuits[jj].id@);
            assert(prefix1[k] == prefix[k]);
            assert(old_circuits[jj].id@ != last.id@) by {
                if j < old_circuits.len() {
                    assert(old_circuits[j].id@ == last.id@);
                }
            }
            assert forall|k2: int| k < k2 < prefix1.len() implies prefix1[k2].id@
                != old_circuits[jj].id@ by {
                if k2 < prefix.len() {
                    assert(prefix1[k2] == prefix[k2]);
                } else {
                    assert(prefix1[k2] == last);
                }
            }
            assert(latest_data(prefix1, new_circuits[jj].id@, new_circuits[jj].data@));
        }
    }
    assert forall|id: Seq<char>| #[trigger] loaded_has(prefix1, id) implies has_entry(
        new_circuits,
        id,
    ) by {
        let k = choose|k: int| 0 <= k < prefix1.len() && (#[trigger] prefix1[k].id@) == id;
        if k < prefix.len() {
            assert(prefix1[k] == prefix[k]);
            assert(loaded_has(prefix, id));
            let jj = choose|jj: int|
                0 <= jj < old_circuits.len() && (#[trigger] old_circuits[jj].id@) == id;
            if jj == j {
                assert(new_circuits[j].id@ == old_circuits[j].id@);
            } else {
                assert(new_circuits[jj] == old_circuits[jj]);
            }
            assert(has_entry(new_circuits, id));
        } else {
            assert(prefix1[k] == last);
            assert(new_circuits[j].id@ == id);
            assert(has_entry(new_circuits, id));
        }
    }
}

/// Outcome of looking up a top-level string field of a JSON document.
pub enum JsonFieldLookup {
    /// The document is not valid JSON.
    InvalidJson,
    /// The document parsed, but has no string field of that name at top level.
    Missing,
    /// The field's string value.
    Found(String),
}

/// What looking up the top-level string field `key` in the document `doc`
/// yields: `None` when `doc` is not valid JSON, `Some(None)` when it is but
/// the field is absent or not a string, `Some(Some(v))` for its value `v`.
pub uninterp spec fn json_string_field_of(doc: Seq<char>, key: Seq<char>) -> Option<
    Option<Seq<char>>,
>;

/// Relies on serde_json: `from_str` parses the document into a
/// `serde_json::Value`, whose `get` and `as_str` read the field.  The
/// outcome depends on the document and the key alone.
#[verifier::external_body]
fn json_string_field(doc: &str, key: &str) -> (r: JsonFieldLookup)
    ensures
        match r {
            JsonFieldLookup::InvalidJson => json_string_field_of(doc@, key@) is None,
            JsonFieldLookup::Missing => json_string_field_of(doc@, key@) == Some(
                None::<Seq<char>>,
            ),
            JsonFieldLookup::Found(s) => json_string_field_of(doc@, key@) == Some(Some(s@)),
        },
{
    match serde_json::from_str::<serde_json::Value>(doc) {
        Err(_) => JsonFieldLookup::InvalidJson,
        Ok(v) => match v.get(key) {
            None => JsonFieldLookup::Missing,
            Some(f) => match f.as_str() {
                None => JsonFieldLookup::Missing,
                Some(s) => JsonFieldLookup::Found(s.to_owned()),
            },
        },
    }
}

/// Extract the bytecode string from the contents of a compiled circuit JSON
/// artifact, whose top-level `bytecode` field carries the encoded circuit.
pub fn extract_bytecode(contents: &str) -> (r: Result<String, String>)
    ensures
        match json_string_field_of(contents@, "bytecode"@) {
            None => r matches Err(e) && e@ == "Failed to parse circuit JSON"@,
            Some(None) => r matches Err(e) && e@ == "No 'bytecode' field in circuit JSON"@,
            Some(Some(b)) => r matches Ok(s) && s@ == b,
        },
{
    match json_string_field(contents, "bytecode") {
        JsonFieldLookup::InvalidJson => Err(String::from_str("Failed to parse circuit JSON")),
        JsonFieldLookup::Missing => Err(String::from_str("No 'bytecode' field in circuit JSON")),
        JsonFieldLookup::Found(s) => Ok(s),
    }
}

/// Finds the position of an id among the stored circuits.
fn find_index(circuits: &Vec<DataEntry>, key: &String) -> (r: Option<usize>)
    ensures
        match r {
            Some(j) => j < circuits@.len() && circuits@[j as int].id@ == key@,
            None => forall|k: int| 0 <= k < circuits@.len() ==> circuits@[k].id@ != key@,
        },
{
    let len = circuits.len();
    let mut i: usize = 0;
    while i < len
        invariant
            len == circuits@.len(),
            i <= len,
            forall|k: int| 0 <= k < i ==> circuits@[k].id@ != key@,
        decreases len - i,
    {
        if circuits[i].id == *key {
            return Some(i);
        }
        i = i + 1;
    }
    None
}

} // verus!
