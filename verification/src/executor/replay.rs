//! Server-owned provenance at the inference/continuation boundary.
//!
//! No parsing, output-item assembly, delivery, or opaque replay happens here.

use sha2::{Digest, Sha256};
use vstd::prelude::*;

use crate::executor::response_budget;
use crate::text;
use crate::types::io::{InputItem, OutputItem, ReasoningOutput, ResponsePayload, ResponsesInput};
use crate::types::reasoning_replay::{
    ReasoningProvenance, ReasoningReplayIdentity, ReasoningReplayPolicy, ReasoningSource,
};
use crate::types::request_response::RequestPayload;
use crate::types::upstream_identity::UpstreamModelId;

verus! {

// ---------------------------------------------------------------------------
// Digests
// ---------------------------------------------------------------------------

/// The SHA-256 digest of `data`.
pub uninterp spec fn sha256_of(data: Seq<u8>) -> [u8; 32];

/// `sha2::Sha256::digest`: the SHA-256 digest of the bytes, which depends on nothing
/// else. Which digest belongs to which bytes is left to the outside function.
#[verifier::external_body]
fn sha256(data: &[u8]) -> (digest: [u8; 32])
    ensures
        digest == sha256_of(data@),
{
    Sha256::digest(data).into()
}

/// Two different inputs with the same digest.
pub open spec fn collide(a: Seq<u8>, b: Seq<u8>) -> bool {
    a != b && sha256_of(a) == sha256_of(b)
}

// ---------------------------------------------------------------------------
// Identity
// ---------------------------------------------------------------------------

/// The tag that separates identities of this kind and version from all other digests.
pub open spec fn identity_domain() -> Seq<u8> {
    vstd::utf8::encode_utf8("agentic-api/reasoning-replay/identity/v1\0"@)
}

pub open spec fn policy_tag(policy: ReasoningReplayPolicy) -> u8 {
    match policy {
        ReasoningReplayPolicy::VllmPlaintext => 0,
        ReasoningReplayPolicy::OpaqueResponses => 1,
    }
}

pub open spec fn presence_tag(present: bool) -> u8 {
    if present {
        1
    } else {
        0
    }
}

/// The bytes that an identity is the digest of: every component at its fixed width,
/// and whether each optional component was there at all.
pub open spec fn identity_bytes(
    policy: ReasoningReplayPolicy,
    endpoint: [u8; 32],
    has_auth: bool,
    auth: [u8; 32],
    requested_model: [u8; 32],
    has_reported_model: bool,
    reported_model: [u8; 32],
) -> Seq<u8> {
    identity_domain() + seq![policy_tag(policy)] + endpoint@ + seq![presence_tag(has_auth)] + auth@
        + requested_model@ + seq![presence_tag(has_reported_model)] + reported_model@
}

/// The UTF-8 bytes of an optional text, none for a missing one.
pub open spec fn opt_bytes(value: Option<Seq<char>>) -> Seq<u8> {
    match value {
        Some(text) => vstd::utf8::encode_utf8(text),
        None => vstd::utf8::encode_utf8(""@),
    }
}

/// The bytes that the identity of these routing inputs is the digest of.
pub open spec fn routing_bytes(
    policy: ReasoningReplayPolicy,
    endpoint: Seq<char>,
    auth: Option<Seq<char>>,
    requested_model: Seq<char>,
    reported_model: Option<Seq<char>>,
) -> Seq<u8> {
    identity_bytes(
        policy,
        sha256_of(vstd::utf8::encode_utf8(endpoint)),
        auth is Some,
        sha256_of(opt_bytes(auth)),
        sha256_of(vstd::utf8::encode_utf8(requested_model)),
        reported_model is Some,
        sha256_of(opt_bytes(reported_model)),
    )
}

/// The identity of these routing inputs.
pub open spec fn routing_identity(
    policy: ReasoningReplayPolicy,
    endpoint: Seq<char>,
    auth: Option<Seq<char>>,
    requested_model: Seq<char>,
    reported_model: Option<Seq<char>>,
) -> [u8; 32] {
    sha256_of(routing_bytes(policy, endpoint, auth, requested_model, reported_model))
}

fn push_all(bytes: &mut Vec<u8>, more: &[u8])
    ensures
        final(bytes)@ == old(bytes)@ + more@,
{
    let ghost before = bytes@;
    let mut i: usize = 0;
    while i < more.len()
        invariant
            i <= more.len(),
            bytes@ == before + more@.take(i as int),
        decreases more.len() - i,
    {
        bytes.push(more[i]);
        i = i + 1;
        assert(more@.take(i as int) =~= more@.take(i - 1).push(more@[i - 1]));
    }
    assert(more@.take(i as int) =~= more@);
}

/// Lay out the digests of the routing inputs as the bytes that identify them.
/// Fixed-width digests make field boundaries unambiguous.
pub fn identity_preimage(
    policy: ReasoningReplayPolicy,
    endpoint: [u8; 32],
    has_auth: bool,
    auth: [u8; 32],
    requested_model: [u8; 32],
    has_reported_model: bool,
    reported_model: [u8; 32],
) -> (bytes: Vec<u8>)
    ensures
        bytes@ == identity_bytes(
            policy,
            endpoint,
            has_auth,
            auth,
            requested_model,
            has_reported_model,
            reported_model,
        ),
{
    let mut bytes: Vec<u8> = Vec::new();
    push_all(&mut bytes, "agentic-api/reasoning-replay/identity/v1\0".as_bytes());
    bytes.push(
        match policy {
            ReasoningReplayPolicy::VllmPlaintext => 0,
            ReasoningReplayPolicy::OpaqueResponses => 1,
        },
    );
    push_all(&mut bytes, &endpoint);
    bytes.push(
        if has_auth {
            1
        } else {
            0
        },
    );
    push_all(&mut bytes, &auth);
    push_all(&mut bytes, &requested_model);
    bytes.push(
        if has_reported_model {
            1
        } else {
            0
        },
    );
    push_all(&mut bytes, &reported_model);
    bytes
}

fn opt_digest(value: Option<&str>) -> (digest: [u8; 32])
    ensures
        digest == sha256_of(opt_bytes(text::opt_str(value))),
{
    match value {
        Some(text) => sha256(text.as_bytes()),
        None => sha256("".as_bytes()),
    }
}

/// Bind exact routing inputs and both model identities without retaining secrets.
/// Missing auth is distinct from an explicitly supplied empty bearer credential.
pub fn upstream_identity(
    policy: ReasoningReplayPolicy,
    endpoint: &str,
    auth: Option<&str>,
    requested_model: &str,
    reported_model: Option<&str>,
) -> (identity: ReasoningReplayIdentity)
    ensures
        identity.digest_spec() == routing_identity(
            policy,
            endpoint@,
            text::opt_str(auth),
            requested_model@,
            text::opt_str(reported_model),
        ),
{
    let bytes: Vec<u8> = identity_preimage(
        policy,
        sha256(endpoint.as_bytes()),
        auth.is_some(),
        opt_digest(auth),
        sha256(requested_model.as_bytes()),
        reported_model.is_some(),
        opt_digest(reported_model),
    );
    ReasoningReplayIdentity::from_digest(sha256(bytes.as_slice()))
}

// ---------------------------------------------------------------------------
// Provenance
// ---------------------------------------------------------------------------

/// A reasoning item with its provenance set, and everything else as it was.
pub open spec fn stamped_reasoning(reasoning: ReasoningOutput, provenance: ReasoningProvenance) -> ReasoningOutput {
    ReasoningOutput { replay_provenance: Some(provenance), ..reasoning }
}

/// An output item after stamping: only reasoning carries provenance.
pub open spec fn stamped_output_item(item: OutputItem, provenance: ReasoningProvenance) -> OutputItem {
    match item {
        OutputItem::Reasoning(reasoning) => OutputItem::Reasoning(stamped_reasoning(reasoning, provenance)),
        _ => item,
    }
}

/// An input item after stamping: only reasoning carries provenance.
pub open spec fn stamped_input_item(item: InputItem, provenance: ReasoningProvenance) -> InputItem {
    match item {
        InputItem::Reasoning(reasoning) => InputItem::Reasoning(stamped_reasoning(reasoning, provenance)),
        _ => item,
    }
}

/// An output after stamping, item by item and in order.
pub open spec fn stamped_output(output: Seq<OutputItem>, provenance: ReasoningProvenance) -> Seq<OutputItem> {
    output.map_values(|item: OutputItem| stamped_output_item(item, provenance))
}

/// Input items after stamping, item by item and in order.
pub open spec fn stamped_items(items: Seq<InputItem>, provenance: ReasoningProvenance) -> Seq<InputItem> {
    items.map_values(|item: InputItem| stamped_input_item(item, provenance))
}

/// The provenance of what this gateway did not observe.
pub open spec fn client_provenance() -> ReasoningProvenance {
    ReasoningProvenance::V1 { source: ReasoningSource::ClientSubmitted }
}

/// The provenance of what this gateway observed.
pub open spec fn upstream_provenance(
    policy: ReasoningReplayPolicy,
    identity: ReasoningReplayIdentity,
) -> ReasoningProvenance {
    ReasoningProvenance::V1 { source: ReasoningSource::Upstream { policy, identity } }
}

/// Whether an output holds any reasoning.
pub open spec fn has_reasoning(output: Seq<OutputItem>) -> bool {
    exists|i: int| 0 <= i < output.len() && #[trigger] output[i] is Reasoning
}

/// Engine settings for Responses requests.
pub struct ResponsesConfig {
    pub reasoning_replay_policy: ReasoningReplayPolicy,
}

/// What the engine runs a request with.
pub struct ExecutionContext {
    pub responses_config: ResponsesConfig,
    pub responses_url: String,
}

impl ExecutionContext {
    /// The configured Responses endpoint.
    pub fn responses_url(&self) -> (url: &str)
        ensures
            url@ == self.responses_url@,
    {
        self.responses_url.as_str()
    }
}

/// The request that an inference round is about.
pub struct RequestContext {
    pub enriched_request: RequestPayload,
}

fn stamp_output(output: &mut [OutputItem], provenance: ReasoningProvenance)
    ensures
        final(output)@ == stamped_output(old(output)@, provenance),
{
    let ghost before = output@;
    let mut i: usize = 0;
    while i < output.len()
        invariant
            i <= output.len(),
            output@.len() == before.len(),
            forall|j: int| 0 <= j < i ==> output@[j] == stamped_output_item(before[j], provenance),
            forall|j: int| i <= j < output@.len() ==> output@[j] == before[j],
        decreases output.len() - i,
    {
        match &mut output[i] {
            OutputItem::Reasoning(reasoning) => {
                reasoning.replay_provenance = Some(provenance);
            },
            _ => {},
        }
        i = i + 1;
    }
    assert(output@ =~= stamped_output(before, provenance));
}

fn contains_reasoning(output: &[OutputItem]) -> (r: bool)
    ensures
        r == has_reasoning(output@),
{
    let mut i: usize = 0;
    while i < output.len()
        invariant
            i <= output.len(),
            forall|j: int| 0 <= j < i ==> !(#[trigger] output@[j] is Reasoning),
        decreases output.len() - i,
    {
        if let OutputItem::Reasoning(_) = &output[i] {
            return true;
        }
        i = i + 1;
    }
    false
}

/// Ingestion has finished; annotate only items observed from this upstream round.
pub fn record_round_provenance(
    payload: &mut ResponsePayload,
    reported_model: Option<&UpstreamModelId>,
    exec_ctx: &ExecutionContext,
    request: &RequestContext,
    auth: Option<&str>,
)
    ensures
        !has_reasoning(old(payload).output@) ==> *final(payload) == *old(payload),
        has_reasoning(old(payload).output@) ==> exists|identity: ReasoningReplayIdentity|
            {
                &&& identity.digest_spec() == routing_identity(
                    exec_ctx.responses_config.reasoning_replay_policy,
                    exec_ctx.responses_url@,
                    text::opt_str(auth),
                    request.enriched_request.model@,
                    match reported_model {
                        Some(model) => Some(model@),
                        None => None,
                    },
                )
                &&& final(payload).output@ == stamped_output(
                    old(payload).output@,
                    #[trigger] upstream_provenance(exec_ctx.responses_config.reasoning_replay_policy, identity),
                )
            },
        *final(payload) == (ResponsePayload { output: final(payload).output, ..*old(payload) }),
{
    let policy: ReasoningReplayPolicy = exec_ctx.responses_config.reasoning_replay_policy;
    let reported: Option<&str> = match reported_model {
        Some(model) => Some(model.as_str()),
        None => None,
    };
    if !contains_reasoning(payload.output.as_slice()) {
        return;
    }
    let identity: ReasoningReplayIdentity = upstream_identity(
        policy,
        exec_ctx.responses_url(),
        auth,
        request.enriched_request.model.as_str(),
        reported,
    );
    record_upstream_provenance(payload.output.as_mut_slice(), policy, identity);
}

/// Apply the round's server-owned observation after successful ingestion.
pub fn record_upstream_provenance(
    output: &mut [OutputItem],
    policy: ReasoningReplayPolicy,
    identity: ReasoningReplayIdentity,
)
    ensures
        final(output)@ == stamped_output(old(output)@, upstream_provenance(policy, identity)),
{
    stamp_output(output, ReasoningProvenance::upstream(policy, identity));
}

/// Incoming public items never inherit an internal provenance claim.
pub fn mark_client_input(input: &mut ResponsesInput)
    ensures
        match (*old(input), *final(input)) {
            (ResponsesInput::Items(before), ResponsesInput::Items(after)) => after@ == stamped_items(
                before@,
                client_provenance(),
            ),
            (ResponsesInput::Text(before), ResponsesInput::Text(after)) => after == before,
            _ => false,
        },
{
    if let ResponsesInput::Items(items) = input {
        mark_client_items(items.as_mut_slice());
    }
}

/// Canonical new inputs can also return from a serialized split-execution context.
pub fn mark_client_items(items: &mut [InputItem])
    ensures
        final(items)@ == stamped_items(old(items)@, client_provenance()),
{
    let provenance: ReasoningProvenance = ReasoningProvenance::client_submitted();
    let ghost before = items@;
    let mut i: usize = 0;
    while i < items.len()
        invariant
            i <= items.len(),
            items@.len() == before.len(),
            forall|j: int| 0 <= j < i ==> items@[j] == stamped_input_item(before[j], provenance),
            forall|j: int| i <= j < items@.len() ==> items@[j] == before[j],
        decreases items.len() - i,
    {
        match &mut items[i] {
            InputItem::Reasoning(reasoning) => {
                reasoning.replay_provenance = Some(provenance);
            },
            _ => {},
        }
        i = i + 1;
    }
    assert(items@ =~= stamped_items(before, provenance));
}

/// Split-execution output was not observed by this gateway's inference transport.
pub fn mark_external_output(output: &mut [OutputItem])
    ensures
        final(output)@ == stamped_output(old(output)@, client_provenance()),
{
    stamp_output(output, ReasoningProvenance::client_submitted());
}

// ---------------------------------------------------------------------------
// Laws
// ---------------------------------------------------------------------------

/// The layout of an identity can be read back: equal bytes come from equal
/// components, so no component can run into the next.
pub proof fn law_identity_layout_is_unambiguous(
    policy: ReasoningReplayPolicy,
    endpoint: [u8; 32],
    has_auth: bool,
    auth: [u8; 32],
    requested_model: [u8; 32],
    has_reported_model: bool,
    reported_model: [u8; 32],
    other_policy: ReasoningReplayPolicy,
    other_endpoint: [u8; 32],
    other_has_auth: bool,
    other_auth: [u8; 32],
    other_requested_model: [u8; 32],
    other_has_reported_model: bool,
    other_reported_model: [u8; 32],
)
    requires
        identity_bytes(
            policy,
            endpoint,
            has_auth,
            auth,
            requested_model,
            has_reported_model,
            reported_model,
        ) == identity_bytes(
            other_policy,
            other_endpoint,
            other_has_auth,
            other_auth,
            other_requested_model,
            other_has_reported_model,
            other_reported_model,
        ),
    ensures
        policy == other_policy,
        endpoint == other_endpoint,
        has_auth == other_has_auth,
        auth == other_auth,
        requested_model == other_requested_model,
        has_reported_model == other_has_reported_model,
        reported_model == other_reported_model,
{
    let one = identity_bytes(
        policy,
        endpoint,
        has_auth,
        auth,
        requested_model,
        has_reported_model,
        reported_model,
    );
    let other = identity_bytes(
        other_policy,
        other_endpoint,
        other_has_auth,
        other_auth,
        other_requested_model,
        other_has_reported_model,
        other_reported_model,
    );
    let start = identity_domain().len() as int;
    assert(one[start] == policy_tag(policy));
    assert(other[start] == policy_tag(other_policy));
    assert(one.subrange(start + 1, start + 33) =~= endpoint@);
    assert(other.subrange(start + 1, start + 33) =~= other_endpoint@);
    assert(one[start + 33] == presence_tag(has_auth));
    assert(other[start + 33] == presence_tag(other_has_auth));
    assert(one.subrange(start + 34, start + 66) =~= auth@);
    assert(other.subrange(start + 34, start + 66) =~= other_auth@);
    assert(one.subrange(start + 66, start + 98) =~= requested_model@);
    assert(other.subrange(start + 66, start + 98) =~= other_requested_model@);
    assert(one[start + 98] == presence_tag(has_reported_model));
    assert(other[start + 98] == presence_tag(other_has_reported_model));
    assert(one.subrange(start + 99, start + 131) =~= reported_model@);
    assert(other.subrange(start + 99, start + 131) =~= other_reported_model@);
    assert(endpoint =~= other_endpoint);
    assert(auth =~= other_auth);
    assert(requested_model =~= other_requested_model);
    assert(reported_model =~= other_reported_model);
}

/// An identity binds every routing input: another policy, endpoint, credential,
/// requested model or reported model gives another identity, unless the inputs
/// exhibit a collision of the digest. A missing credential or reported model is an
/// input of its own, different from an empty one.
pub proof fn law_identity_binds_every_input(
    policy: ReasoningReplayPolicy,
    endpoint: Seq<char>,
    auth: Option<Seq<char>>,
    requested_model: Seq<char>,
    reported_model: Option<Seq<char>>,
    other_policy: ReasoningReplayPolicy,
    other_endpoint: Seq<char>,
    other_auth: Option<Seq<char>>,
    other_requested_model: Seq<char>,
    other_reported_model: Option<Seq<char>>,
)
    requires
        routing_identity(policy, endpoint, auth, requested_model, reported_model) == routing_identity(
            other_policy,
            other_endpoint,
            other_auth,
            other_requested_model,
            other_reported_model,
        ),
    ensures
        ({
            &&& policy == other_policy
            &&& endpoint == other_endpoint
            &&& auth == other_auth
            &&& requested_model == other_requested_model
            &&& reported_model == other_reported_model
        }) || collide(
            routing_bytes(policy, endpoint, auth, requested_model, reported_model),
            routing_bytes(
                other_policy,
                other_endpoint,
                other_auth,
                other_requested_model,
                other_reported_model,
            ),
        ) || collide(vstd::utf8::encode_utf8(endpoint), vstd::utf8::encode_utf8(other_endpoint)) || collide(
            opt_bytes(auth),
            opt_bytes(other_auth),
        ) || collide(
            vstd::utf8::encode_utf8(requested_model),
            vstd::utf8::encode_utf8(other_requested_model),
        ) || collide(opt_bytes(reported_model), opt_bytes(other_reported_model)),
{
    if routing_bytes(policy, endpoint, auth, requested_model, reported_model) == routing_bytes(
        other_policy,
        other_endpoint,
        other_auth,
        other_requested_model,
        other_reported_model,
    ) {
        law_identity_layout_is_unambiguous(
            policy,
            sha256_of(vstd::utf8::encode_utf8(endpoint)),
            auth is Some,
            sha256_of(opt_bytes(auth)),
            sha256_of(vstd::utf8::encode_utf8(requested_model)),
            reported_model is Some,
            sha256_of(opt_bytes(reported_model)),
            other_policy,
            sha256_of(vstd::utf8::encode_utf8(other_endpoint)),
            other_auth is Some,
            sha256_of(opt_bytes(other_auth)),
            sha256_of(vstd::utf8::encode_utf8(other_requested_model)),
            other_reported_model is Some,
            sha256_of(opt_bytes(other_reported_model)),
        );
        text::lemma_utf8_injective(endpoint, other_endpoint);
        text::lemma_utf8_injective(requested_model, other_requested_model);
        if let (Some(one), Some(other)) = (auth, other_auth) {
            text::lemma_utf8_injective(one, other);
        }
        if let (Some(one), Some(other)) = (reported_model, other_reported_model) {
            text::lemma_utf8_injective(one, other);
        }
    }
}

/// The last stamp counts: whatever provenance output items claimed before, stamping
/// replaces it. Output that was observed upstream and then returns from outside is
/// client-submitted again.
pub proof fn law_last_output_stamp_counts(
    output: Seq<OutputItem>,
    earlier: ReasoningProvenance,
    later: ReasoningProvenance,
)
    ensures
        stamped_output(stamped_output(output, earlier), later) == stamped_output(output, later),
{
    assert(stamped_output(stamped_output(output, earlier), later) =~= stamped_output(output, later));
}

/// Input items never keep a provenance claim of their own: marking them gives the
/// same items whatever they claimed.
pub proof fn law_client_items_keep_no_claim(items: Seq<InputItem>, claim: ReasoningProvenance)
    ensures
        stamped_items(stamped_items(items, claim), client_provenance()) == stamped_items(items, client_provenance()),
{
    assert(stamped_items(stamped_items(items, claim), client_provenance()) =~= stamped_items(
        items,
        client_provenance(),
    ));
}

/// Stamping output changes nothing but the provenance of reasoning items: the items
/// stay where they are, and each costs what it did.
pub proof fn law_stamping_changes_provenance_only(
    response_id: Seq<char>,
    output: Seq<OutputItem>,
    provenance: ReasoningProvenance,
)
    ensures
        stamped_output(output, provenance).len() == output.len(),
        forall|i: int| 0 <= i < output.len() ==> match #[trigger] stamped_output(output, provenance)[i] {
            OutputItem::Reasoning(reasoning) => {
                &&& output[i] matches OutputItem::Reasoning(before)
                &&& reasoning.replay_provenance == Some(provenance)
                &&& before == ReasoningOutput { replay_provenance: before.replay_provenance, ..reasoning }
            },
            item => output[i] == item,
        },
        response_budget::response_bytes(response_id, stamped_output(output, provenance))
            == response_budget::response_bytes(response_id, output),
    decreases output.len(),
{
    if output.len() > 0 {
        law_stamping_changes_provenance_only(response_id, output.drop_last(), provenance);
        assert(stamped_output(output, provenance).drop_last() =~= stamped_output(output.drop_last(), provenance));
    }
}

/// Whatever a client sends is marked as the client's: after marking, every reasoning
/// item says that it was submitted, whether it came with a claim or with none; nothing
/// else about it changes, and no other item does.
pub proof fn law_marked_items_are_client_submitted(items: Seq<InputItem>)
    ensures
        stamped_items(items, client_provenance()).len() == items.len(),
        forall|i: int|
            0 <= i < items.len() ==> match items[i] {
                InputItem::Reasoning(before) => #[trigger] stamped_items(items, client_provenance())[i]
                    == InputItem::Reasoning(
                    ReasoningOutput {
                        replay_provenance: Some(
                            ReasoningProvenance::V1 { source: ReasoningSource::ClientSubmitted },
                        ),
                        ..before
                    },
                ),
                InputItem::Other(_) => stamped_items(items, client_provenance())[i] == items[i],
            },
{
}

/// Output that comes back from outside is marked as the client's, item by item, in the
/// same way as input.
pub proof fn law_external_output_is_client_submitted(output: Seq<OutputItem>)
    ensures
        stamped_output(output, client_provenance()).len() == output.len(),
        forall|i: int|
            0 <= i < output.len() ==> match output[i] {
                OutputItem::Reasoning(before) => #[trigger] stamped_output(output, client_provenance())[i]
                    == OutputItem::Reasoning(
                    ReasoningOutput {
                        replay_provenance: Some(
                            ReasoningProvenance::V1 { source: ReasoningSource::ClientSubmitted },
                        ),
                        ..before
                    },
                ),
                _ => stamped_output(output, client_provenance())[i] == output[i],
            },
{
}

/// Output observed upstream says so: after recording, every reasoning item carries the
/// policy and the identity of its round, whatever it carried before; nothing else about
/// it changes, and no other item does.
pub proof fn law_recorded_output_is_upstream(
    output: Seq<OutputItem>,
    policy: ReasoningReplayPolicy,
    identity: ReasoningReplayIdentity,
)
    ensures
        stamped_output(output, upstream_provenance(policy, identity)).len() == output.len(),
        forall|i: int|
            0 <= i < output.len() ==> match output[i] {
                OutputItem::Reasoning(before) => #[trigger] stamped_output(
                    output,
                    upstream_provenance(policy, identity),
                )[i] == OutputItem::Reasoning(
                    ReasoningOutput {
                        replay_provenance: Some(
                            ReasoningProvenance::V1 { source: ReasoningSource::Upstream { policy, identity } },
                        ),
                        ..before
                    },
                ),
                _ => stamped_output(output, upstream_provenance(policy, identity))[i] == output[i],
            },
{
}

/// Reasoning anywhere in an output counts: an output is left unrecorded only where none
/// of its items, at any position, is reasoning.
pub proof fn law_reasoning_is_found_anywhere(output: Seq<OutputItem>, at: int)
    ensures
        0 <= at < output.len() && output[at] is Reasoning ==> has_reasoning(output),
        !has_reasoning(output) && 0 <= at < output.len() ==> !(output[at] is Reasoning),
        has_reasoning(output) ==> exists|i: int| 0 <= i < output.len() && #[trigger] output[i] is Reasoning,
{
}

/// What client input and upstream output are marked with is never the same.
pub proof fn law_client_and_upstream_marks_differ(policy: ReasoningReplayPolicy, identity: ReasoningReplayIdentity)
    ensures
        client_provenance() != upstream_provenance(policy, identity),
{
}

/// The bytes of an identity, place by place: the versioned domain, the policy, and then
/// each component at its fixed width, with a byte before each optional one that says
/// whether it was there.
pub proof fn law_identity_bytes_place_every_component(
    policy: ReasoningReplayPolicy,
    endpoint: [u8; 32],
    has_auth: bool,
    auth: [u8; 32],
    requested_model: [u8; 32],
    has_reported_model: bool,
    reported_model: [u8; 32],
)
    ensures
        ({
            let bytes = identity_bytes(
                policy,
                endpoint,
                has_auth,
                auth,
                requested_model,
                has_reported_model,
                reported_model,
            );
            let start = vstd::utf8::encode_utf8("agentic-api/reasoning-replay/identity/v1\0"@).len() as int;
            &&& bytes.len() == start + 131
            &&& bytes.take(start) == vstd::utf8::encode_utf8("agentic-api/reasoning-replay/identity/v1\0"@)
            &&& bytes[start] == (if policy is OpaqueResponses {
                1u8
            } else {
                0u8
            })
            &&& bytes.subrange(start + 1, start + 33) == endpoint@
            &&& bytes[start + 33] == (if has_auth {
                1u8
            } else {
                0u8
            })
            &&& bytes.subrange(start + 34, start + 66) == auth@
            &&& bytes.subrange(start + 66, start + 98) == requested_model@
            &&& bytes[start + 98] == (if has_reported_model {
                1u8
            } else {
                0u8
            })
            &&& bytes.subrange(start + 99, start + 131) == reported_model@
        }),
{
}

/// A reasoning item differs from another in nothing but its provenance, which is the
/// given one.
pub open spec fn only_provenance_is_set(
    before: ReasoningOutput,
    after: ReasoningOutput,
    provenance: ReasoningProvenance,
) -> bool {
    &&& after.replay_provenance == Some(provenance)
    &&& after.id == before.id
    &&& after.status == before.status
    &&& after.content == before.content
    &&& after.summary == before.summary
    &&& after.encrypted_content == before.encrypted_content
}

/// Marking input items leaves as many in the same places: every reasoning item says that
/// a client submitted it, with or without an earlier claim, and no other item changes.
pub proof fn law_marking_reaches_every_input_item(items: &mut [InputItem], at: int)
    requires
        call_ensures(mark_client_items, (items,), ()),
    ensures
        final(items)@.len() == old(items)@.len(),
        0 <= at < old(items)@.len() ==> match old(items)@[at] {
            InputItem::Reasoning(before) => final(items)@[at] matches InputItem::Reasoning(after)
                && only_provenance_is_set(
                before,
                after,
                ReasoningProvenance::V1 { source: ReasoningSource::ClientSubmitted },
            ),
            InputItem::Other(_) => final(items)@[at] == old(items)@[at],
        },
{
}

/// Marking a request's input is marking its items; an input that is plain text stays as
/// it is.
pub proof fn law_marking_reaches_a_requests_items(input: &mut ResponsesInput, at: int)
    requires
        call_ensures(mark_client_input, (input,), ()),
    ensures
        match *old(input) {
            ResponsesInput::Text(text) => *final(input) == ResponsesInput::Text(text),
            ResponsesInput::Items(before) => *final(input) matches ResponsesInput::Items(after) && {
                &&& after@.len() == before@.len()
                &&& 0 <= at < before@.len() ==> match before@[at] {
                    InputItem::Reasoning(old_item) => after@[at] matches InputItem::Reasoning(new_item)
                        && only_provenance_is_set(
                        old_item,
                        new_item,
                        ReasoningProvenance::V1 { source: ReasoningSource::ClientSubmitted },
                    ),
                    InputItem::Other(_) => after@[at] == before@[at],
                }
            },
        },
{
}

/// Marking output from outside leaves as many items in the same places: every reasoning
/// item says that a client submitted it, and no other item changes.
pub proof fn law_marking_reaches_every_output_item(output: &mut [OutputItem], at: int)
    requires
        call_ensures(mark_external_output, (output,), ()),
    ensures
        final(output)@.len() == old(output)@.len(),
        0 <= at < old(output)@.len() ==> match old(output)@[at] {
            OutputItem::Reasoning(before) => final(output)@[at] matches OutputItem::Reasoning(after)
                && only_provenance_is_set(
                before,
                after,
                ReasoningProvenance::V1 { source: ReasoningSource::ClientSubmitted },
            ),
            _ => final(output)@[at] == old(output)@[at],
        },
{
}

/// Recording an observation leaves as many items in the same places: every reasoning item
/// says under which policy and identity it was observed, and no other item changes.
pub proof fn law_recording_reaches_every_output_item(
    output: &mut [OutputItem],
    policy: ReasoningReplayPolicy,
    identity: ReasoningReplayIdentity,
    at: int,
)
    requires
        call_ensures(record_upstream_provenance, (output, policy, identity), ()),
    ensures
        final(output)@.len() == old(output)@.len(),
        0 <= at < old(output)@.len() ==> match old(output)@[at] {
            OutputItem::Reasoning(before) => final(output)@[at] matches OutputItem::Reasoning(after)
                && only_provenance_is_set(
                before,
                after,
                ReasoningProvenance::V1 { source: ReasoningSource::Upstream { policy, identity } },
            ),
            _ => final(output)@[at] == old(output)@[at],
        },
{
}

/// Recording a round sets the provenance of every reasoning item to the round's policy
/// and to the identity of its endpoint, credential and models, and changes nothing else
/// of the response.
pub proof fn law_recorded_rounds_carry_their_identity(
    payload: &mut ResponsePayload,
    reported_model: Option<&UpstreamModelId>,
    exec_ctx: ExecutionContext,
    request: RequestContext,
    auth: Option<&str>,
    at: int,
)
    requires
        call_ensures(record_round_provenance, (payload, reported_model, &exec_ctx, &request, auth), ()),
    ensures
        *final(payload) == (ResponsePayload { output: final(payload).output, ..*old(payload) }),
        final(payload).output@.len() == old(payload).output@.len(),
        0 <= at < old(payload).output@.len() ==> match old(payload).output@[at] {
            OutputItem::Reasoning(before) => exists|identity: ReasoningReplayIdentity|
                {
                    &&& #[trigger] identity.digest_spec() == routing_identity(
                        exec_ctx.responses_config.reasoning_replay_policy,
                        exec_ctx.responses_url@,
                        match auth {
                            Some(credential) => Some(credential@),
                            None => None,
                        },
                        request.enriched_request.model@,
                        match reported_model {
                            Some(model) => Some(model@),
                            None => None,
                        },
                    )
                    &&& final(payload).output@[at] matches OutputItem::Reasoning(after)
                    &&& only_provenance_is_set(
                        before,
                        after,
                        ReasoningProvenance::V1 {
                            source: ReasoningSource::Upstream {
                                policy: exec_ctx.responses_config.reasoning_replay_policy,
                                identity,
                            },
                        },
                    )
                },
            _ => final(payload).output@[at] == old(payload).output@[at],
        },
{
    let policy = exec_ctx.responses_config.reasoning_replay_policy;
    let digest = routing_identity(
        policy,
        exec_ctx.responses_url@,
        text::opt_str(auth),
        request.enriched_request.model@,
        match reported_model {
            Some(model) => Some(model@),
            None => None,
        },
    );
    if has_reasoning(old(payload).output@) {
        let identity = choose|identity: ReasoningReplayIdentity|
            {
                &&& identity.digest_spec() == digest
                &&& final(payload).output@ == stamped_output(
                    old(payload).output@,
                    #[trigger] upstream_provenance(policy, identity),
                )
            };
        assert(upstream_provenance(policy, identity) == (ReasoningProvenance::V1 {
            source: ReasoningSource::Upstream { policy, identity },
        }));
        assert(identity.digest_spec() == digest);
    } else if 0 <= at < old(payload).output@.len() {
        assert(!(old(payload).output@[at] is Reasoning));
    }
}

/// An identity is the digest of the laid-out digests of its inputs, each input by its
/// UTF-8 bytes and a missing one by those of the empty text.
pub proof fn law_identities_digest_their_inputs(
    policy: ReasoningReplayPolicy,
    endpoint: &str,
    auth: Option<&str>,
    requested_model: &str,
    reported_model: Option<&str>,
    identity: ReasoningReplayIdentity,
    preimage: Vec<u8>,
)
    requires
        call_ensures(upstream_identity, (policy, endpoint, auth, requested_model, reported_model), identity),
        call_ensures(
            identity_preimage,
            (
                policy,
                sha256_of(vstd::utf8::encode_utf8(endpoint@)),
                auth is Some,
                sha256_of(
                    vstd::utf8::encode_utf8(
                        match auth {
                            Some(credential) => credential@,
                            None => ""@,
                        },
                    ),
                ),
                sha256_of(vstd::utf8::encode_utf8(requested_model@)),
                reported_model is Some,
                sha256_of(
                    vstd::utf8::encode_utf8(
                        match reported_model {
                            Some(model) => model@,
                            None => ""@,
                        },
                    ),
                ),
            ),
            preimage,
        ),
    ensures
        identity.digest_spec() == sha256_of(preimage@),
{
}

} // verus!
