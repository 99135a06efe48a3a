//! Certificates, and the graph of trust that a node starts with.

use crate::identity::public_key_bytes;
use crate::span::Span;
use libp2p::identity::ed25519::PublicKey;
use std::time::Duration;
use trust_graph::{Certificate, TrustGraph};
use vstd::prelude::*;

verus! {

#[verifier::external_type_specification]
#[verifier::external_body]
pub struct ExCertificate(Certificate);

#[verifier::external_type_specification]
#[verifier::external_body]
pub struct ExTrustGraph(TrustGraph);

/// One link of a certificate: whom it is issued for, until when it holds, who
/// signed it, and when it was issued. Times are in nanoseconds.
pub struct TrustLink {
    pub issued_for: Seq<u8>,
    pub signature: Seq<u8>,
    pub expires_at: nat,
    pub issued_at: nat,
}

/// For the key that is spoken of and the key that speaks, the link that is its word.
pub type Relations = Map<(Seq<u8>, Seq<u8>), TrustLink>;

/// The links of a certificate, from its root on.
pub uninterp spec fn certificate_chain(certificate: Certificate) -> Seq<TrustLink>;

/// What `Certificate::verify` says of a chain, given the trusted roots and the
/// current time: nothing, or why the chain is refused.
pub uninterp spec fn certificate_verdict(
    chain: Seq<TrustLink>,
    roots: Set<Seq<u8>>,
    cur_time: nat,
) -> Result<(), Seq<char>>;

/// The weight of each root key of a graph.
pub uninterp spec fn graph_roots(graph: TrustGraph) -> Map<Seq<u8>, u32>;

/// The relations that a graph holds, each with the link that was taken up for it.
pub uninterp spec fn graph_relations(graph: TrustGraph) -> Relations;

/// The relation that link `i` of a chain states. The root speaks for itself,
/// every other link is spoken by the one before it.
pub open spec fn link_relation(chain: Seq<TrustLink>, i: int) -> (Seq<u8>, Seq<u8>) {
    (chain[i].issued_for, chain[if i == 0 { 0 } else { i - 1 }].issued_for)
}

/// Among `relations` is one that speaks of `key`.
pub open spec fn speak_of(relations: Relations, key: Seq<u8>) -> bool {
    exists|speaker: Seq<u8>| #[trigger] relations.contains_key((key, speaker))
}

/// `relations` with link `i` of `chain` taken up, unless a word that is as new stands in
/// its place.
pub open spec fn link_taken_up(relations: Relations, chain: Seq<TrustLink>, i: int) -> Relations {
    let relation = link_relation(chain, i);
    if relations.contains_key(relation) && relations[relation].issued_at >= chain[i].issued_at {
        relations
    } else {
        relations.insert(relation, chain[i])
    }
}

/// `relations` with the first `n` links of `chain` taken up, in order. The root is left
/// out if `relations` speak of it already.
pub open spec fn taken_up(relations: Relations, chain: Seq<TrustLink>, n: nat) -> Relations
    decreases n,
{
    if n == 0 {
        relations
    } else if n == 1 && speak_of(relations, chain[0].issued_for) {
        relations
    } else {
        link_taken_up(taken_up(relations, chain, (n - 1) as nat), chain, n - 1)
    }
}

/// `chain` starts at one of `roots`, and none of its links has run out.
pub open spec fn chain_in_force(
    chain: Seq<TrustLink>,
    roots: Set<Seq<u8>>,
    cur_time: nat,
) -> bool {
    &&& chain.len() > 0
    &&& roots.contains(chain[0].issued_for)
    &&& forall|i: int| 0 <= i < chain.len() ==> cur_time <= (#[trigger] chain[i]).expires_at
}

/// The weights that a list of root keys sets; where a key occurs twice, the
/// later weight holds.
pub open spec fn weight_of_roots(root_weights: Seq<(PublicKey, u32)>) -> Map<Seq<u8>, u32>
    decreases root_weights.len(),
{
    if root_weights.len() == 0 {
        Map::empty()
    } else {
        weight_of_roots(root_weights.drop_last()).insert(
            public_key_bytes(root_weights.last().0),
            root_weights.last().1,
        )
    }
}

/// `TrustGraph::new`: a graph with the given root weights and no relations.
#[verifier::external_body]
fn new_trust_graph(root_weights: &Vec<(PublicKey, u32)>) -> (graph: TrustGraph)
    ensures
        graph_roots(graph) == weight_of_roots(root_weights@),
        graph_relations(graph) == Relations::empty(),
{
    TrustGraph::new(
        root_weights
            .iter()
            .map(|(key, weight)| {
                let key = libp2p_core::identity::ed25519::PublicKey::decode(&key.encode());
                (key.expect("an encoded key decodes"), *weight)
            })
            .collect(),
    )
}

/// `TrustGraph::add`: the certificate is held against the graph's roots and the
/// current time. If it verifies, which takes a chain in force, its links are
/// taken up in order; if not, the graph stays as it was and the reason comes back. The
/// graph has a node for exactly those keys that its relations speak of, and a root that
/// has one is passed over. The root weights stay in either case.
#[verifier::external_body]
fn add_certificate(graph: &mut TrustGraph, certificate: &Certificate, cur_time: Span) -> (r: Result<
    (),
    String,
>)
    ensures
        graph_roots(*final(graph)) == graph_roots(*old(graph)),
        match (
            certificate_verdict(
                certificate_chain(*certificate),
                graph_roots(*old(graph)).dom(),
                cur_time@,
            ),
            r,
        ) {
            (Ok(_), Ok(_)) => {
                &&& chain_in_force(
                    certificate_chain(*certificate),
                    graph_roots(*old(graph)).dom(),
                    cur_time@,
                )
                &&& graph_relations(*final(graph)) == taken_up(
                    graph_relations(*old(graph)),
                    certificate_chain(*certificate),
                    certificate_chain(*certificate).len(),
                )
            },
            (Err(why), Err(reason)) => {
                &&& why == reason@
                &&& graph_relations(*final(graph)) == graph_relations(*old(graph))
            },
            _ => false,
        },
{
    let (secs, nanos) = cur_time.parts();
    graph.add(certificate, Duration::new(secs, nanos))
}

/// What `Certificate::from_str` makes of a text: the links of a certificate, or
/// why there is none.
pub uninterp spec fn parsed_certificate(text: Seq<char>) -> Result<Seq<TrustLink>, Seq<char>>;

/// `text` has two lines or more.
pub open spec fn has_two_lines(text: Seq<char>) -> bool {
    exists|i: int| 0 <= i < text.len() - 1 && #[trigger] text[i] == '\n'
}

/// `Certificate::from_str`, on a text that holds the two lines that it skips.
#[verifier::external_body]
fn parse_certificate(text: &str) -> (r: Result<Certificate, String>)
    requires
        has_two_lines(text@),
    ensures
        match (parsed_certificate(text@), r) {
            (Ok(chain), Ok(certificate)) => certificate_chain(certificate) == chain,
            (Err(why), Err(reason)) => reason@ == why,
            _ => false,
        },
{
    text.parse()
}

/// The first two lines of a certificate's text: its format and its version.
pub const CERTIFICATE_HEADER: &'static str = "11\n1111\n";

/// Three links, of four lines each: the key, the signature, and the times at
/// which the link runs out and was issued.
pub const CERTIFICATE_LINKS: &'static str = "EqpwyPYjbRbGPcp7Q1UtSnkeCDG9x3JrY96strN4uaXv
4Td1uTWzqWp1PyUzoUZyvWNjgPWQKpMFDYeqzoAJSXHQtkVispifSrnnqBFM8yFPkgmSHwQ4kTuACBifjoRryvFK
18446744073709551615
1589892496362
DYVjCCtVPnJNEDfRDzYn6a2GKJ6Qn4FNVwDhEAQBvdQS
3Tt8UxBr2pixgMMbRM4gnJDkX3zH3NnS5q4A5fCj3taMLpS2QathgUqkW4KHysQLeRoGxy3JNVtYEWLsL6kySrqv
1621450096362
1589892496362
HFF3V9XXbhdTLWGVZkJYd9a7NyuD5BLWLdwc4EFBcCZa
38FUPbDMrrb1FaRoRTsupjqysaH3vvpJJgp9NxLFBjBYoU353bb6LkDZLDsNwvnpVysrs6TdHeZAAe3iXrJuGLkn
101589892496363
1589892496363
";

/// The certificate that `CERTIFICATE_HEADER` and `CERTIFICATE_LINKS` spell out.
pub fn get_cert() -> (r: Result<Certificate, String>)
    ensures
        match (parsed_certificate(CERTIFICATE_HEADER@ + CERTIFICATE_LINKS@), r) {
            (Ok(chain), Ok(certificate)) => certificate_chain(certificate) == chain,
            (Err(why), Err(reason)) => reason@ == why,
            _ => false,
        },
{
    let mut text = CERTIFICATE_HEADER.to_owned();
    text.append(CERTIFICATE_LINKS);
    proof {
        reveal_strlit("11\n1111\n");
        assert(text@[2] == '\n');
    }
    parse_certificate(text.as_str())
}

/// Whom a node trusts from the start: root keys with their weights, and the
/// certificates to take up at `cur_time`.
#[derive(Clone, Debug)]
pub struct Trust {
    pub root_weights: Vec<(PublicKey, u32)>,
    pub certificates: Vec<Certificate>,
    pub cur_time: Span,
}

impl Default for Trust {
    /// No roots and no certificates.
    fn default() -> (trust: Trust)
        ensures
            trust.root_weights@.len() == 0,
            trust.certificates@.len() == 0,
            trust.cur_time@ == 0,
    {
        Trust {
            root_weights: Vec::new(),
            certificates: Vec::new(),
            cur_time: Span::from_secs(0),
        }
    }
}

impl Trust {
    /// What the graph says of certificate `i`.
    pub open spec fn verdict(self, i: int) -> Result<(), Seq<char>> {
        certificate_verdict(
            certificate_chain(self.certificates@[i]),
            weight_of_roots(self.root_weights@).dom(),
            self.cur_time@,
        )
    }

    /// Certificate `i` starts at a root and none of its links has run out.
    pub open spec fn in_force(self, i: int) -> bool {
        chain_in_force(
            certificate_chain(self.certificates@[i]),
            weight_of_roots(self.root_weights@).dom(),
            self.cur_time@,
        )
    }

    /// The relations of an empty graph that has taken up the first `n` certificates, in
    /// order.
    pub open spec fn relations(self, n: nat) -> Relations
        decreases n,
    {
        if n == 0 {
            Relations::empty()
        } else {
            let chain = certificate_chain(self.certificates@[n - 1]);
            taken_up(self.relations((n - 1) as nat), chain, chain.len())
        }
    }

    /// Every certificate is accepted, and `graph` holds the root weights and what comes of
    /// taking up the certificates in order.
    pub open spec fn accepted_into(self, graph: TrustGraph) -> bool {
        &&& forall|i: int|
            0 <= i < self.certificates@.len() ==> #[trigger] self.verdict(i) is Ok
        &&& forall|i: int| 0 <= i < self.certificates@.len() ==> #[trigger] self.in_force(i)
        &&& graph_roots(graph) == weight_of_roots(self.root_weights@)
        &&& graph_relations(graph) == self.relations(self.certificates@.len())
    }

    /// `rejected` is the first certificate that is refused, with the reason.
    pub open spec fn first_refusal(self, rejected: RejectedCertificate) -> bool {
        &&& rejected.index < self.certificates@.len()
        &&& self.verdict(rejected.index as int) == Err::<(), Seq<char>>(rejected.reason@)
        &&& forall|i: int| 0 <= i < rejected.index ==> #[trigger] self.verdict(i) is Ok
    }
}

/// The certificate at `index` was refused, for the given reason.
#[derive(Debug)]
pub struct RejectedCertificate {
    pub index: usize,
    pub reason: String,
}

/// The graph of trust that a node starts with: the root weights of `trust`, then
/// each of its certificates in order. The first certificate that does not verify
/// ends the attempt. Without `trust` the graph is empty.
pub fn build_trust_graph(trust: &Option<Trust>) -> (r: Result<TrustGraph, RejectedCertificate>)
    ensures
        match (trust, r) {
            (None, Ok(graph)) => {
                &&& graph_roots(graph) == Map::<Seq<u8>, u32>::empty()
                &&& graph_relations(graph) == Relations::empty()
            },
            (None, Err(_)) => false,
            (Some(trust), Ok(graph)) => trust.accepted_into(graph),
            (Some(trust), Err(rejected)) => trust.first_refusal(rejected),
        },
{
    match trust {
        None => {
            let root_weights: Vec<(PublicKey, u32)> = Vec::new();
            Ok(new_trust_graph(&root_weights))
        },
        Some(given) => {
            let mut graph = new_trust_graph(&given.root_weights);
            let mut i: usize = 0;
            while i < given.certificates.len()
                invariant
                    *trust == Some(*given),
                    i <= given.certificates@.len(),
                    graph_roots(graph) == weight_of_roots(given.root_weights@),
                    forall|j: int| 0 <= j < i ==> #[trigger] given.verdict(j) is Ok,
                    forall|j: int| 0 <= j < i ==> #[trigger] given.in_force(j),
                    graph_relations(graph) == given.relations(i as nat),
                decreases given.certificates@.len() - i,
            {
                match add_certificate(&mut graph, &given.certificates[i], given.cur_time) {
                    Ok(_) => {},
                    Err(reason) => {
                        return Err(RejectedCertificate { index: i, reason });
                    },
                }
                i = i + 1;
            }
            Ok(graph)
        },
    }
}

/// A certificate is refused, or every certificate is taken up: never both.
pub proof fn law_refused_is_not_accepted(
    trust: Trust,
    rejected: RejectedCertificate,
    graph: TrustGraph,
)
    requires
        trust.first_refusal(rejected),
    ensures
        !trust.accepted_into(graph),
{
    assert(trust.verdict(rejected.index as int) is Err);
}

/// Without a root, no certificate can be accepted, and the graph has no relations.
pub proof fn law_nothing_without_a_root(trust: Trust, graph: TrustGraph)
    requires
        trust.root_weights@.len() == 0,
        trust.accepted_into(graph),
    ensures
        trust.certificates@.len() == 0,
        graph_roots(graph) == Map::<Seq<u8>, u32>::empty(),
        graph_relations(graph) == Relations::empty(),
{
    if trust.certificates@.len() > 0 {
        assert(trust.in_force(0));
    }
}

/// Taking up links never loses a relation, nor replaces a word by an older one.
proof fn lemma_taken_up_keeps(
    relations: Relations,
    chain: Seq<TrustLink>,
    n: nat,
    relation: (Seq<u8>, Seq<u8>),
)
    requires
        relations.contains_key(relation),
    ensures
        taken_up(relations, chain, n).contains_key(relation),
        relations[relation].issued_at <= taken_up(relations, chain, n)[relation].issued_at,
    decreases n,
{
    if n > 0 {
        lemma_taken_up_keeps(relations, chain, (n - 1) as nat, relation);
    }
}

/// Every link behind the root is taken up, or a word that is as new stands in its place.
proof fn lemma_taken_up_has_link(relations: Relations, chain: Seq<TrustLink>, n: nat, k: int)
    requires
        1 <= k < n,
    ensures
        taken_up(relations, chain, n).contains_key(link_relation(chain, k)),
        chain[k].issued_at <= taken_up(relations, chain, n)[link_relation(
            chain,
            k,
        )].issued_at,
    decreases n,
{
    if k < n - 1 {
        lemma_taken_up_has_link(relations, chain, (n - 1) as nat, k);
    }
}

/// Every relation was there before, or is the word of a link.
proof fn lemma_taken_up_source(
    relations: Relations,
    chain: Seq<TrustLink>,
    n: nat,
    relation: (Seq<u8>, Seq<u8>),
)
    requires
        taken_up(relations, chain, n).contains_key(relation),
    ensures
        ({
            ||| relations.contains_key(relation) && relations[relation] == taken_up(
                relations,
                chain,
                n,
            )[relation]
            ||| exists|k: int|
                0 <= k < n && #[trigger] link_relation(chain, k) == relation && chain[k]
                    == taken_up(relations, chain, n)[relation]
        }),
    decreases n,
{
    if n > 0 && !(n == 1 && speak_of(relations, chain[0].issued_for)) {
        let before = taken_up(relations, chain, (n - 1) as nat);
        if link_relation(chain, n - 1) == relation && taken_up(relations, chain, n)[relation]
            == chain[n - 1] {
            assert(link_relation(chain, n - 1) == relation);
        } else {
            assert(before.contains_key(relation));
            lemma_taken_up_source(relations, chain, (n - 1) as nat, relation);
        }
    }
}

proof fn lemma_relations_keep(trust: Trust, m: nat, n: nat, relation: (Seq<u8>, Seq<u8>))
    requires
        m <= n,
        trust.relations(m).contains_key(relation),
    ensures
        trust.relations(n).contains_key(relation),
        trust.relations(m)[relation].issued_at <= trust.relations(n)[relation].issued_at,
    decreases n,
{
    if m < n {
        lemma_relations_keep(trust, m, (n - 1) as nat, relation);
        let chain = certificate_chain(trust.certificates@[n - 1]);
        lemma_taken_up_keeps(trust.relations((n - 1) as nat), chain, chain.len(), relation);
    }
}

/// Link `k` of certificate `i` stands among the relations of the graph, with its own
/// word or a newer one, unless it is the root.
pub proof fn law_accepted_links_are_recorded(trust: Trust, graph: TrustGraph, i: int, k: int)
    requires
        trust.accepted_into(graph),
        0 <= i < trust.certificates@.len(),
        1 <= k < certificate_chain(trust.certificates@[i]).len(),
    ensures
        graph_relations(graph).contains_key(
            link_relation(certificate_chain(trust.certificates@[i]), k),
        ),
        certificate_chain(trust.certificates@[i])[k].issued_at <= graph_relations(
            graph,
        )[link_relation(certificate_chain(trust.certificates@[i]), k)].issued_at,
{
    let chain = certificate_chain(trust.certificates@[i]);
    let relation = link_relation(chain, k);
    lemma_taken_up_has_link(trust.relations(i as nat), chain, chain.len(), k);
    assert(trust.relations((i + 1) as nat) == taken_up(
        trust.relations(i as nat),
        chain,
        chain.len(),
    ));
    lemma_relations_keep(trust, (i + 1) as nat, trust.certificates@.len(), relation);
}

/// The first `n` certificates state `relation` by the link `word`.
pub open spec fn stated(trust: Trust, n: nat, relation: (Seq<u8>, Seq<u8>), word: TrustLink) -> bool {
    exists|i: int, k: int|
        {
            &&& 0 <= i < n
            &&& 0 <= k < certificate_chain(trust.certificates@[i]).len()
            &&& #[trigger] link_relation(certificate_chain(trust.certificates@[i]), k)
                == relation
            &&& certificate_chain(trust.certificates@[i])[k] == word
        }
}

proof fn lemma_relations_source(trust: Trust, n: nat, relation: (Seq<u8>, Seq<u8>))
    requires
        trust.relations(n).contains_key(relation),
    ensures
        stated(trust, n, relation, trust.relations(n)[relation]),
    decreases n,
{
    if n > 0 {
        let chain = certificate_chain(trust.certificates@[n - 1]);
        let before = trust.relations((n - 1) as nat);
        lemma_taken_up_source(before, chain, chain.len(), relation);
        if before.contains_key(relation) && before[relation] == trust.relations(n)[relation] {
            lemma_relations_source(trust, (n - 1) as nat, relation);
        } else {
            let k = choose|k: int|
                0 <= k < chain.len() && #[trigger] link_relation(chain, k) == relation && chain[k]
                    == trust.relations(n)[relation];
            assert(link_relation(certificate_chain(trust.certificates@[n - 1]), k) == relation);
        }
    }
}

/// The graph holds no relation but those that the certificates state, each with the word
/// of a certificate.
pub proof fn law_relations_come_from_certificates(
    trust: Trust,
    graph: TrustGraph,
    relation: (Seq<u8>, Seq<u8>),
)
    requires
        trust.accepted_into(graph),
        graph_relations(graph).contains_key(relation),
    ensures
        stated(
            trust,
            trust.certificates@.len(),
            relation,
            graph_relations(graph)[relation],
        ),
{
    lemma_relations_source(trust, trust.certificates@.len(), relation);
}

/// A graph is built if and only if every certificate verifies against the roots and the time;
/// otherwise the first that does not is given back. The roots of the graph have the weights
/// that were set for them.
pub proof fn law_graph_is_owed(trust: Trust, r: Result<TrustGraph, RejectedCertificate>)
    requires
        call_ensures(build_trust_graph, (&Some(trust),), r),
    ensures
        r is Ok <==> forall|i: int|
            0 <= i < trust.certificates@.len() ==> certificate_verdict(
                certificate_chain(#[trigger] trust.certificates@[i]),
                weight_of_roots(trust.root_weights@).dom(),
                trust.cur_time@,
            ) is Ok,
        r matches Err(rejected) ==> {
            &&& rejected.index < trust.certificates@.len()
            &&& certificate_verdict(
                certificate_chain(trust.certificates@[rejected.index as int]),
                weight_of_roots(trust.root_weights@).dom(),
                trust.cur_time@,
            ) == Err::<(), Seq<char>>(rejected.reason@)
            &&& forall|i: int|
                0 <= i < rejected.index ==> certificate_verdict(
                    certificate_chain(#[trigger] trust.certificates@[i]),
                    weight_of_roots(trust.root_weights@).dom(),
                    trust.cur_time@,
                ) is Ok
        },
        r matches Ok(graph) ==> graph_roots(graph) == weight_of_roots(trust.root_weights@),
{
    if let Ok(_) = r {
        assert forall|i: int| 0 <= i < trust.certificates@.len() implies certificate_verdict(
            certificate_chain(#[trigger] trust.certificates@[i]),
            weight_of_roots(trust.root_weights@).dom(),
            trust.cur_time@,
        ) is Ok by {
            assert(trust.verdict(i) is Ok);
        }
    }
    if let Err(rejected) = r {
        assert(trust.verdict(rejected.index as int) is Err);
        assert forall|i: int| 0 <= i < rejected.index implies certificate_verdict(
            certificate_chain(#[trigger] trust.certificates@[i]),
            weight_of_roots(trust.root_weights@).dom(),
            trust.cur_time@,
        ) is Ok by {
            assert(trust.verdict(i) is Ok);
        }
    }
}

/// A root has the weight that was set for it last.
pub proof fn law_last_weight_holds(root_weights: Seq<(PublicKey, u32)>, i: int)
    requires
        0 <= i < root_weights.len(),
        forall|j: int|
            i < j < root_weights.len() ==> public_key_bytes((#[trigger] root_weights[j]).0)
                != public_key_bytes(root_weights[i].0),
    ensures
        weight_of_roots(root_weights).contains_key(public_key_bytes(root_weights[i].0)),
        weight_of_roots(root_weights)[public_key_bytes(root_weights[i].0)] == root_weights[i].1,
    decreases root_weights.len(),
{
    let last = root_weights.len() - 1;
    if i < last {
        let front = root_weights.drop_last();
        assert(public_key_bytes(root_weights[last].0) != public_key_bytes(root_weights[i].0));
        assert forall|j: int| i < j < front.len() implies public_key_bytes(
            (#[trigger] front[j]).0,
        ) != public_key_bytes(front[i].0) by {
            assert(front[j] == root_weights[j]);
        }
        law_last_weight_holds(front, i);
    }
}

/// No key is a root but those for which a weight was set.
pub proof fn law_no_other_roots(root_weights: Seq<(PublicKey, u32)>, key: Seq<u8>)
    requires
        forall|i: int|
            0 <= i < root_weights.len() ==> public_key_bytes((#[trigger] root_weights[i]).0) != key,
    ensures
        !weight_of_roots(root_weights).contains_key(key),
    decreases root_weights.len(),
{
    if root_weights.len() > 0 {
        let front = root_weights.drop_last();
        assert forall|i: int| 0 <= i < front.len() implies public_key_bytes(
            (#[trigger] front[i]).0,
        ) != key by {
            assert(front[i] == root_weights[i]);
        }
        assert(public_key_bytes(root_weights[root_weights.len() - 1].0) != key);
        law_no_other_roots(front, key);
    }
}

/// Certificates are taken up in their order: with one more certificate at the end, the graph is
/// the one without it, with the links of that certificate taken up last.
pub proof fn law_last_certificate_is_taken_up_last(
    trust: Trust,
    graph: TrustGraph,
    longer: Trust,
    longer_graph: TrustGraph,
)
    requires
        call_ensures(build_trust_graph, (&Some(trust),), Ok(graph)),
        call_ensures(build_trust_graph, (&Some(longer),), Ok(longer_graph)),
        longer.certificates@.len() == trust.certificates@.len() + 1,
        longer.certificates@.drop_last() == trust.certificates@,
    ensures
        graph_relations(longer_graph) == taken_up(
            graph_relations(graph),
            certificate_chain(longer.certificates@.last()),
            certificate_chain(longer.certificates@.last()).len(),
        ),
{
    lemma_relations_of_same_start(trust, longer, trust.certificates@.len());
}

proof fn lemma_relations_of_same_start(trust: Trust, longer: Trust, n: nat)
    requires
        n <= trust.certificates@.len(),
        trust.certificates@ == longer.certificates@.drop_last(),
        longer.certificates@.len() > 0,
    ensures
        trust.relations(n) == longer.relations(n),
    decreases n,
{
    if n > 0 {
        lemma_relations_of_same_start(trust, longer, (n - 1) as nat);
        assert(longer.certificates@.drop_last()[n - 1] == longer.certificates@[n - 1]);
    }
}

/// Without certificates the graph holds no relations, whether there is trust or not.
pub proof fn law_no_certificates_no_relations(trust: Option<Trust>, graph: TrustGraph)
    requires
        call_ensures(build_trust_graph, (&trust,), Ok(graph)),
        trust matches Some(given) ==> given.certificates@.len() == 0,
    ensures
        graph_relations(graph) == Relations::empty(),
        trust is None ==> graph_roots(graph) == Map::<Seq<u8>, u32>::empty(),
{
}

} // verus!
