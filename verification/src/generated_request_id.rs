//! Identifiers of the requests that a pylon makes of its own accord. An
//! identifier carries its purpose and the generation it is for, so that neither
//! has to be kept anywhere.

use vstd::prelude::*;

use crate::generation::ModelGeneration;
use crate::text::{decimal, join_texts, parse_decimal, rsplit_once, rsplit_text, strip_text_prefix};
use crate::tunnel_backend::random_id;

verus! {

/// What a generated request is for.
#[derive(Clone, Copy, Debug, PartialEq, Eq, Structural)]
pub enum GeneratedRequestKind {
    Calibration,
    Canary,
}

impl GeneratedRequestKind {
    pub open spec fn spec_prefix(self) -> Seq<char> {
        match self {
            GeneratedRequestKind::Calibration => "calibration"@,
            GeneratedRequestKind::Canary => "canary"@,
        }
    }

    pub fn prefix(self) -> (prefix: &'static str)
        ensures
            prefix@ == self.spec_prefix(),
    {
        match self {
            GeneratedRequestKind::Calibration => "calibration",
            GeneratedRequestKind::Canary => "canary",
        }
    }
}

/// What `Uuid::parse_str` makes of a text: the identifier as a number, or none
/// for a text that writes no identifier.
pub uninterp spec fn uuid_value(text: Seq<char>) -> Option<u128>;

/// `Uuid::parse_str` reads an identifier, `Uuid::as_u128` gives its number.
#[verifier::external_body]
fn parse_uuid(text: &str) -> (value: Option<u128>)
    ensures
        value == uuid_value(text@),
{
    uuid::Uuid::parse_str(text).ok().map(|id| id.as_u128())
}

/// The identifier of a generated request.
pub open spec fn issued(kind: GeneratedRequestKind, scope: Seq<char>, sequence: u64, counter: u64) -> Seq<char> {
    kind.spec_prefix() + "-"@ + scope + "-g"@ + crate::text::decimal_text(sequence as nat) + "-"@
        + crate::text::decimal_text(counter as nat)
}

/// The purpose and the scope that stand at the front of an identifier.
pub open spec fn kind_and_scope(text: Seq<char>) -> Option<(GeneratedRequestKind, Seq<char>)> {
    if crate::text::occurs_at(text, "calibration-"@, 0) {
        Some((GeneratedRequestKind::Calibration, text.skip("calibration-"@.len() as int)))
    } else if crate::text::occurs_at(text, "canary-"@, 0) {
        Some((GeneratedRequestKind::Canary, text.skip("canary-"@.len() as int)))
    } else {
        None
    }
}

/// What an identifier says to the process of a scope; a foreign one says
/// nothing.
pub open spec fn parts_of(request_id: Seq<char>, scope: u128) -> Option<(GeneratedRequestKind, u64)> {
    match crate::text::split_last(request_id, '-') {
        None => None,
        Some((without_counter, counter)) => if crate::text::decimal_at_most(counter, u64::MAX as nat) is None {
            None
        } else {
            match crate::text::split_last_text(without_counter, "-g"@) {
                None => None,
                Some((named, generation)) => match crate::text::decimal_at_most(generation, u64::MAX as nat) {
                    None => None,
                    Some(sequence) => match kind_and_scope(named) {
                        None => None,
                        Some((kind, written)) => if uuid_value(written) == Some(scope) {
                            Some((kind, sequence as u64))
                        } else {
                            None
                        },
                    },
                },
            }
        },
    }
}

/// What an identifier says, given what its scope was read as.
pub fn request_parts(kind: GeneratedRequestKind, sequence: u64, read_scope: Option<u128>, own_scope: u128) -> (parts: Option<
    (GeneratedRequestKind, u64),
>)
    ensures
        parts == (if read_scope == Some(own_scope) {
            Some((kind, sequence))
        } else {
            None
        }),
{
    match read_scope {
        Some(scope) => if scope == own_scope {
            Some((kind, sequence))
        } else {
            None
        },
        None => None,
    }
}

/// Makes the identifiers of one process, and knows them again.
#[derive(Debug)]
pub struct GeneratedRequestIds {
    scope: String,
    scope_value: u128,
    counter: u64,
}

impl GeneratedRequestIds {
    pub closed spec fn scope(&self) -> Seq<char> {
        self.scope@
    }

    pub closed spec fn scope_value(&self) -> u128 {
        self.scope_value
    }

    /// The number that the next identifier ends with.
    pub closed spec fn counter(&self) -> u64 {
        self.counter
    }

    pub closed spec fn wf(&self) -> bool {
        uuid_value(self.scope@) == Some(self.scope_value)
    }

    /// The scope is read as its number.
    pub proof fn lemma_scope(&self)
        requires
            self.wf(),
        ensures
            uuid_value(self.scope()) == Some(self.scope_value()),
    {
    }

    /// A scope of its own, which no other process has.
    pub fn new() -> (ids: Self)
        ensures
            ids.wf(),
            crate::tunnel_backend::random_uuid_text(ids.scope()),
            ids.counter() == 1,
    {
        let scope = random_id();
        let scope_value: u128 = match parse_uuid(scope.as_str()) {
            Some(scope_value) => scope_value,
            None => 0,
        };
        GeneratedRequestIds { scope, scope_value, counter: 1 }
    }

    /// A given scope, where it is an identifier.
    pub fn with_scope(scope: &str) -> (ids: Option<Self>)
        ensures
            match ids {
                Some(ids) => {
                    &&& ids.wf()
                    &&& ids.scope() == scope@
                    &&& uuid_value(scope@) == Some(ids.scope_value())
                    &&& ids.counter() == 1
                },
                None => uuid_value(scope@) is None,
            },
    {
        match parse_uuid(scope) {
            Some(scope_value) => Some(
                GeneratedRequestIds { scope: scope.to_string(), scope_value, counter: 1 },
            ),
            None => None,
        }
    }

    /// Whether all identifiers have been used up.
    pub fn is_exhausted(&self) -> (exhausted: bool)
        ensures
            exhausted == (self.counter() == u64::MAX),
    {
        self.counter == u64::MAX
    }

    /// The next identifier.
    pub fn next_generated_request_id(&mut self, kind: GeneratedRequestKind, generation: &ModelGeneration) -> (id: String)
        requires
            old(self).wf(),
            old(self).counter() < u64::MAX,
        ensures
            final(self).wf(),
            final(self).scope() == old(self).scope(),
            final(self).scope_value() == old(self).scope_value(),
            final(self).counter() == old(self).counter() + 1,
            id@ == issued(kind, old(self).scope(), generation@.sequence, old(self).counter()),
            parts_of(id@, old(self).scope_value()) == Some((kind, generation@.sequence)),
    {
        let counter: u64 = self.counter;
        self.counter = counter + 1;
        proof {
            law_issued_id_round_trips(kind, self.scope(), self.scope_value(), generation@.sequence, counter);
        }
        let id = join_texts(kind.prefix(), "-");
        let id = join_texts(id.as_str(), self.scope.as_str());
        let id = join_texts(id.as_str(), "-g");
        let id = join_texts(id.as_str(), decimal(generation.sequence()).as_str());
        let id = join_texts(id.as_str(), "-");
        join_texts(id.as_str(), decimal(counter).as_str())
    }

    fn generated_request_parts(&self, request_id: &str) -> (parts: Option<(GeneratedRequestKind, u64)>)
        ensures
            parts == parts_of(request_id@, self.scope_value()),
    {
        let (without_counter, counter) = match rsplit_once(request_id, '-') {
            Some(parts) => parts,
            None => {
                return None;
            },
        };
        if parse_decimal(counter.as_str(), u64::MAX).is_none() {
            return None;
        }
        let (named, generation) = match rsplit_text(without_counter.as_str(), "-g") {
            Some(parts) => parts,
            None => {
                return None;
            },
        };
        let sequence: u64 = match parse_decimal(generation.as_str(), u64::MAX) {
            Some(sequence) => sequence,
            None => {
                return None;
            },
        };
        let (kind, written) = match strip_text_prefix(named.as_str(), "calibration-") {
            Some(written) => (GeneratedRequestKind::Calibration, written),
            None => match strip_text_prefix(named.as_str(), "canary-") {
                Some(written) => (GeneratedRequestKind::Canary, written),
                None => {
                    return None;
                },
            },
        };
        request_parts(kind, sequence, parse_uuid(written.as_str()), self.scope_value)
    }

    /// What a request is for that this process made.
    pub fn generated_request_kind(&self, request_id: &str) -> (kind: Option<GeneratedRequestKind>)
        ensures
            kind == (match parts_of(request_id@, self.scope_value()) {
                Some((kind, _)) => Some(kind),
                None => None,
            }),
    {
        match self.generated_request_parts(request_id) {
            Some((kind, _)) => Some(kind),
            None => None,
        }
    }

    /// The generation that a request is for that this process made.
    pub fn generated_request_generation(&self, request_id: &str, model_id: &str) -> (generation: Option<ModelGeneration>)
        ensures
            match (generation, parts_of(request_id@, self.scope_value())) {
                (Some(generation), Some((_, sequence))) => {
                    &&& generation@.model_id == model_id@
                    &&& generation@.sequence == sequence
                },
                (None, None) => true,
                _ => false,
            },
    {
        match self.generated_request_parts(request_id) {
            Some((_, sequence)) => Some(ModelGeneration::new(model_id, sequence)),
            None => None,
        }
    }
}

/// Where the counter of an identifier begins.
proof fn lemma_counter_split(kind: GeneratedRequestKind, scope: Seq<char>, sequence: u64, counter: u64)
    ensures
        crate::text::split_last(issued(kind, scope, sequence, counter), '-') == Some(
            (
                kind.spec_prefix() + "-"@ + scope + "-g"@ + crate::text::decimal_text(sequence as nat),
                crate::text::decimal_text(counter as nat),
            ),
        ),
{
    reveal_strlit("-");
    let head = kind.spec_prefix() + "-"@ + scope + "-g"@ + crate::text::decimal_text(sequence as nat);
    let number = crate::text::decimal_text(counter as nat);
    let id = issued(kind, scope, sequence, counter);
    crate::text::lemma_decimal_round_trip(counter as nat);
    let at = head.len() as int;
    assert(id =~= head + "-"@ + number);
    assert forall|i: int| at < i < id.len() implies id[i] != '-' by {
        assert(id[i] == number[i - at - 1]);
    }
    crate::text::lemma_split_last(id, '-', at);
    assert(id.take(at) =~= head);
    assert(id.skip(at + 1) =~= number);
}

/// An identifier that a process makes tells it the purpose and the exact
/// generation again; a process of another scope it tells nothing.
pub proof fn law_issued_id_round_trips(
    kind: GeneratedRequestKind,
    scope: Seq<char>,
    scope_value: u128,
    sequence: u64,
    counter: u64,
)
    requires
        uuid_value(scope) == Some(scope_value),
    ensures
        parts_of(issued(kind, scope, sequence, counter), scope_value) == Some((kind, sequence)),
        forall|other: u128|
            other != scope_value ==> #[trigger] parts_of(issued(kind, scope, sequence, counter), other) is None,
{
    reveal_strlit("-");
    reveal_strlit("-g");
    reveal_strlit("calibration");
    reveal_strlit("canary");
    reveal_strlit("calibration-");
    reveal_strlit("canary-");
    let named = kind.spec_prefix() + "-"@ + scope;
    let number = crate::text::decimal_text(sequence as nat);
    let head = named + "-g"@ + number;
    crate::text::lemma_decimal_round_trip(sequence as nat);
    crate::text::lemma_decimal_round_trip(counter as nat);
    lemma_counter_split(kind, scope, sequence, counter);
    assert(kind.spec_prefix() + "-"@ + scope + "-g"@ + number =~= head);
    let at = named.len() as int;
    assert(head.subrange(at, at + 2) =~= "-g"@);
    assert forall|i: int| at < i implies !#[trigger] crate::text::occurs_at(head, "-g"@, i) by {
        if crate::text::occurs_at(head, "-g"@, i) {
            assert(head.subrange(i, i + 2)[0] == '-');
            assert(head[i] == '-');
            if i == at + 1 {
                assert(head[i] == 'g');
            } else {
                assert(head[i] == number[i - at - 2]);
            }
        }
    }
    crate::text::lemma_split_last_text(head, "-g"@, at);
    assert(head.take(at) =~= named);
    assert(head.skip(at + 2) =~= number);
    if kind is Calibration {
        assert(named.subrange(0, 12) =~= "calibration-"@);
        assert(named.skip(12) =~= scope);
    } else {
        assert(named.subrange(0, 7) =~= "canary-"@);
        assert(named.skip(7) =~= scope);
        assert(!crate::text::occurs_at(named, "calibration-"@, 0)) by {
            if crate::text::occurs_at(named, "calibration-"@, 0) {
                assert(named.subrange(0, 12)[2] == 'l');
                assert(named[2] == 'n');
            }
        }
    }
}

/// Two identifiers of a scope that end in different numbers are different.
pub proof fn law_issued_ids_differ(
    kind: GeneratedRequestKind,
    other_kind: GeneratedRequestKind,
    scope: Seq<char>,
    sequence: u64,
    other_sequence: u64,
    counter: u64,
    other_counter: u64,
)
    requires
        counter != other_counter,
    ensures
        issued(kind, scope, sequence, counter) != issued(other_kind, scope, other_sequence, other_counter),
{
    lemma_counter_split(kind, scope, sequence, counter);
    lemma_counter_split(other_kind, scope, other_sequence, other_counter);
    crate::text::lemma_decimal_round_trip(counter as nat);
    crate::text::lemma_decimal_round_trip(other_counter as nat);
}

} // verus!
