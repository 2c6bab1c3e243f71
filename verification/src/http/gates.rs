use vstd::prelude::*;
use crate::wire::{self, MemberModel, WireObject};
use crate::Error;

verus! {

/// The name of the member that says which gate an object is.
pub open spec fn tag_name() -> Seq<char> {
    "gate"@
}

/// The name of the only member of a failure body.
pub open spec fn error_name() -> Seq<char> {
    "error"@
}

/// Whether an object names a gate at all.
pub open spec fn tagged(members: Seq<MemberModel>) -> bool {
    wire::text_of(members, tag_name()) is Some
}

/// Why a body was not decoded.
pub enum Undecoded {
    /// The body is no JSON object; the parser's complaint is kept.
    Malformed(String),
    /// The body is an object, but none that the expected schema describes.
    Unrecognized,
}

/// A set of gates: the labelled cases that one side of a contract may send.
///
/// A type is a set of gates when each of its values has a wire object, which names the
/// case in the member `gate`, and when reading that object gives the value back.
pub trait Gates: View + Clone + Sized {
    /// The wire object of a gate.
    spec fn wire(gate: Self::V) -> Seq<MemberModel>;

    /// Which gate an object stands for, if it stands for one.
    spec fn read(members: Seq<MemberModel>) -> Option<Self::V>;

    /// Reading the wire object of a gate gives that gate.
    proof fn lemma_read_wire(gate: Self::V)
        ensures
            Self::read(Self::wire(gate)) == Some(gate),
    ;

    /// Only an object that names a gate is read as one.
    proof fn lemma_read_needs_tag(members: Seq<MemberModel>)
        ensures
            Self::read(members) is Some ==> tagged(members),
    ;

    /// Builds the wire object of this gate.
    fn to_wire(&self) -> (r: WireObject)
        ensures
            r@ == Self::wire(self@),
    ;

    /// Reads a gate from a wire object.
    fn from_wire(object: &WireObject) -> (r: Option<Self>)
        ensures
            match r {
                Some(gate) => Self::read(object@) == Some(gate@),
                None => Self::read(object@) is None,
            },
    ;
}

/// The body that reports a failed handler call: nothing but the failure's message.
pub struct GateErrorResponse {
    error: String,
}

impl View for GateErrorResponse {
    type V = Seq<char>;

    closed spec fn view(&self) -> Seq<char> {
        self.error@
    }
}

impl Clone for GateErrorResponse {
    fn clone(&self) -> (r: Self)
        ensures
            r@ == self@,
    {
        GateErrorResponse { error: self.error.clone() }
    }
}

impl GateErrorResponse {
    /// The wire object of a failure with the given message.
    pub open spec fn wire(message: Seq<char>) -> Seq<MemberModel> {
        seq![(error_name(), Some(message))]
    }

    /// The message of a failure body, if the object is one.
    pub open spec fn read(members: Seq<MemberModel>) -> Option<Seq<char>> {
        wire::text_of(members, error_name())
    }

    /// The failure body for an error: its string form and nothing else of it.
    pub fn from(value: Error) -> (r: Self)
        ensures
            r@ == value@.message(),
    {
        GateErrorResponse { error: value.to_string() }
    }

    /// The message.
    pub fn message(&self) -> (r: &str)
        ensures
            r@ == self@,
    {
        self.error.as_str()
    }

    /// Builds the wire object of this failure.
    pub fn to_wire(&self) -> (r: WireObject)
        ensures
            r@ == Self::wire(self@),
    {
        let mut object = WireObject::new();
        object.push_text("error", self.error.as_str());
        assert(object@ =~= Self::wire(self@));
        object
    }

    /// Reads a failure from a wire object.
    pub fn from_wire(object: &WireObject) -> (r: Option<Self>)
        ensures
            match r {
                Some(failure) => Self::read(object@) == Some(failure@),
                None => Self::read(object@) is None,
            },
    {
        match object.text("error") {
            Some(message) => Some(GateErrorResponse { error: message.clone() }),
            None => None,
        }
    }
}

/// The outcome of a handler call as it is put on the wire: the response gate itself, or
/// the failure body. The two shapes share no member.
pub enum GateResult<G: Gates> {
    Success(G),
    Failure(GateErrorResponse),
}

impl<G: Gates> View for GateResult<G> {
    type V = Result<G::V, Seq<char>>;

    open spec fn view(&self) -> Result<G::V, Seq<char>> {
        match self {
            GateResult::Success(gate) => Ok(gate@),
            GateResult::Failure(failure) => Err(failure@),
        }
    }
}

impl<G: Gates> GateResult<G> {
    /// The wire object of an outcome: that of a response gate, or that of a failure.
    pub open spec fn wire(outcome: Result<G::V, Seq<char>>) -> Seq<MemberModel> {
        match outcome {
            Ok(gate) => G::wire(gate),
            Err(message) => GateErrorResponse::wire(message),
        }
    }

    /// The outcome that an object stands for: it is read as a gate first, and as a
    /// failure body only when it is no gate.
    pub open spec fn read(members: Seq<MemberModel>) -> Option<Result<G::V, Seq<char>>> {
        match G::read(members) {
            Some(gate) => Some(Ok(gate)),
            None => match GateErrorResponse::read(members) {
                Some(message) => Some(Err(message)),
                None => None,
            },
        }
    }

    /// The outcome of a handler call: its gate, or the failure body of its error.
    pub open spec fn of(result: Result<G::V, crate::error::ErrorModel>) -> Result<G::V, Seq<char>> {
        match result {
            Ok(gate) => Ok(gate),
            Err(e) => Err(e.message()),
        }
    }

    /// Wraps what a handler returned: a gate as it is, an error as the failure body that
    /// holds its string form.
    pub fn from(result: Result<G, Error>) -> (r: Self)
        ensures
            r@ == Self::of(
                match result {
                    Ok(gate) => Ok(gate@),
                    Err(e) => Err(e@),
                },
            ),
    {
        match result {
            Ok(gate) => GateResult::Success(gate),
            Err(e) => GateResult::Failure(GateErrorResponse::from(e)),
        }
    }

    /// Builds the wire object of this outcome.
    pub fn to_wire(&self) -> (r: WireObject)
        ensures
            r@ == Self::wire(self@),
    {
        match self {
            GateResult::Success(gate) => gate.to_wire(),
            GateResult::Failure(failure) => failure.to_wire(),
        }
    }

    /// Reads an outcome from a wire object, as a gate first and as a failure otherwise.
    pub fn from_wire(object: &WireObject) -> (r: Option<Self>)
        ensures
            match r {
                Some(outcome) => Self::read(object@) == Some(outcome@),
                None => Self::read(object@) is None,
            },
    {
        match G::from_wire(object) {
            Some(gate) => Some(GateResult::Success(gate)),
            None => match GateErrorResponse::from_wire(object) {
                Some(failure) => Some(GateResult::Failure(failure)),
                None => None,
            },
        }
    }

    /// The response body of this outcome.
    pub fn serialize(&self) -> (r: String)
        ensures
            r@ == wire::json_text(Self::wire(self@)),
    {
        self.to_wire().print()
    }

    /// Writes the response body of this outcome and reads it back. The body is returned
    /// only when the object read from it is the object that was written; it then reads
    /// as this outcome, and the body of a failure holds no gate.
    pub fn serialize_checked(&self) -> (r: Option<String>)
        ensures
            match r {
                Some(body) => body@ == wire::json_text(Self::wire(self@)) && wire::json_object(
                    body@,
                ) == Ok::<Seq<MemberModel>, Seq<char>>(Self::wire(self@)) && Self::read(
                    Self::wire(self@),
                ) == Some(self@) && (self@ is Err ==> gate_of::<G>(body@) is None),
                None => wire::json_object(wire::json_text(Self::wire(self@))) != Ok::<
                    Seq<MemberModel>,
                    Seq<char>,
                >(Self::wire(self@)),
            },
    {
        let object = self.to_wire();
        let body = object.print();
        match WireObject::parse(body.as_str()) {
            Ok(back) => {
                if back.same(&object) {
                    proof {
                        outcome_round_trip::<G>(self@);
                        if let Err(message) = self@ {
                            failure_body_is_no_gate::<G>(message);
                        }
                    }
                    Some(body)
                } else {
                    None
                }
            },
            Err(_) => None,
        }
    }

    /// Reads a response body as an outcome.
    pub fn deserialize(body: &str) -> (r: Result<Self, Undecoded>)
        ensures
            match r {
                Ok(outcome) => wire::json_object(body@) matches Ok(members) && Self::read(
                    members,
                ) == Some(outcome@),
                Err(Undecoded::Malformed(detail)) => wire::json_object(body@) == Err::<
                    Seq<MemberModel>,
                    Seq<char>,
                >(detail@),
                Err(Undecoded::Unrecognized) => wire::json_object(body@) matches Ok(members)
                    && Self::read(members) is None,
            },
    {
        match WireObject::parse(body) {
            Ok(object) => match Self::from_wire(&object) {
                Some(outcome) => Ok(outcome),
                None => Err(Undecoded::Unrecognized),
            },
            Err(detail) => Err(Undecoded::Malformed(detail)),
        }
    }
}

/// The request or response body of a gate.
pub open spec fn body_of<G: Gates>(gate: G::V) -> Seq<char> {
    wire::json_text(G::wire(gate))
}

/// Which gate of the set `G` a body holds, if it holds one.
pub open spec fn gate_of<G: Gates>(body: Seq<char>) -> Option<G::V> {
    match wire::json_object(body) {
        Ok(members) => G::read(members),
        Err(_) => None,
    }
}

/// Writes the request or response body of a gate.
pub fn encode<G: Gates>(gate: &G) -> (r: String)
    ensures
        r@ == body_of::<G>(gate@),
{
    gate.to_wire().print()
}

/// Writes the body of a gate and reads it back. The body is returned only when the
/// object read from it is the object that was written, and then the body holds a gate
/// equal to the one that was encoded.
pub fn encode_checked<G: Gates>(gate: &G) -> (r: Option<String>)
    ensures
        match r {
            Some(body) => body@ == body_of::<G>(gate@) && gate_of::<G>(body@) == Some(gate@),
            None => wire::json_object(body_of::<G>(gate@)) != Ok::<Seq<MemberModel>, Seq<char>>(
                G::wire(gate@),
            ),
        },
{
    let object = gate.to_wire();
    let body = object.print();
    match WireObject::parse(body.as_str()) {
        Ok(back) => {
            if back.same(&object) {
                proof {
                    G::lemma_read_wire(gate@);
                }
                Some(body)
            } else {
                None
            }
        },
        Err(_) => None,
    }
}

/// Reads a body as a gate of the set `G`.
pub fn decode<G: Gates>(body: &str) -> (r: Result<G, Undecoded>)
    ensures
        match r {
            Ok(gate) => gate_of::<G>(body@) == Some(gate@),
            Err(Undecoded::Malformed(detail)) => wire::json_object(body@) == Err::<
                Seq<MemberModel>,
                Seq<char>,
            >(detail@),
            Err(Undecoded::Unrecognized) => wire::json_object(body@) is Ok && gate_of::<G>(
                body@,
            ) is None,
        },
{
    match WireObject::parse(body) {
        Ok(object) => match G::from_wire(&object) {
            Some(gate) => Ok(gate),
            None => Err(Undecoded::Unrecognized),
        },
        Err(detail) => Err(Undecoded::Malformed(detail)),
    }
}

/// A failure body is never read as a gate, whatever the set of gates.
pub proof fn failure_body_is_no_gate<G: Gates>(message: Seq<char>)
    ensures
        G::read(GateErrorResponse::wire(message)) is None,
{
    reveal_strlit("gate");
    reveal_strlit("error");
    let members = GateErrorResponse::wire(message);
    assert(error_name().len() == 5);
    assert(tag_name().len() == 4);
    assert(members[0].0 != tag_name());
    assert(members.drop_first().len() == 0);
    assert(!tagged(members)) by {
        reveal_with_fuel(wire::text_of, 2);
    }
    G::lemma_read_needs_tag(members);
}

/// Read through the fallback, a failure body gives its message.
pub proof fn failure_body_reads_as_failure<G: Gates>(message: Seq<char>)
    ensures
        GateErrorResponse::read(GateErrorResponse::wire(message)) == Some(message),
        GateResult::<G>::read(GateErrorResponse::wire(message)) == Some(
            Err::<G::V, Seq<char>>(message),
        ),
{
    failure_body_is_no_gate::<G>(message);
}

/// Encoding an outcome and decoding it again gives the outcome back, for a gate and for a
/// failure alike.
pub proof fn outcome_round_trip<G: Gates>(outcome: Result<G::V, Seq<char>>)
    ensures
        GateResult::<G>::read(GateResult::<G>::wire(outcome)) == Some(outcome),
{
    match outcome {
        Ok(gate) => {
            G::lemma_read_wire(gate);
        },
        Err(message) => {
            failure_body_reads_as_failure::<G>(message);
        },
    }
}

/// Encoding a gate and decoding it as a gate of the same set gives an equal gate.
pub proof fn gate_round_trip<G: Gates>(gate: G::V)
    ensures
        G::read(G::wire(gate)) == Some(gate),
        tagged(G::wire(gate)),
{
    G::lemma_read_wire(gate);
    G::lemma_read_needs_tag(G::wire(gate));
}

/// Where the JSON layer reads the body of a gate back as the object that was written,
/// decoding that body gives an equal gate; and where it reads a failure body back, that
/// body holds no gate and is read as the failure.
pub proof fn body_round_trip<G: Gates>(gate: G::V, message: Seq<char>)
    ensures
        wire::json_object(body_of::<G>(gate)) == Ok::<Seq<MemberModel>, Seq<char>>(
            G::wire(gate),
        ) ==> gate_of::<G>(body_of::<G>(gate)) == Some(gate),
        ({
            let failure = GateErrorResponse::wire(message);
            wire::json_object(wire::json_text(failure)) == Ok::<
                Seq<MemberModel>,
                Seq<char>,
            >(failure) ==> gate_of::<G>(wire::json_text(failure)) is None
                && GateResult::<G>::read(failure) == Some(Err::<G::V, Seq<char>>(message))
        }),
{
    gate_round_trip::<G>(gate);
    failure_body_reads_as_failure::<G>(message);
}

} // verus!
