use vstd::prelude::*;
use crate::http::gates::{self, Gates};
use crate::http::Context;
use crate::wire::{self, same_text, MemberModel, WireObject};
use crate::Origin;

verus! {

/// The requests of the sample service.
pub enum ExGatesReq {
    Ping {  },
    Hello { msg: String },
    HelloToMe { msg: String },
    Time {  },
}

/// The responses of the sample service.
pub enum ExGatesRes {
    Pong {  },
    Hello { msg: String },
    Time { time: String },
}

/// The model of a request of the sample service.
pub enum ReqModel {
    Ping,
    Hello { msg: Seq<char> },
    HelloToMe { msg: Seq<char> },
    Time,
}

/// The model of a response of the sample service.
pub enum ResModel {
    Pong,
    Hello { msg: Seq<char> },
    Time { time: Seq<char> },
}

impl View for ExGatesReq {
    type V = ReqModel;

    open spec fn view(&self) -> ReqModel {
        match self {
            ExGatesReq::Ping {  } => ReqModel::Ping,
            ExGatesReq::Hello { msg } => ReqModel::Hello { msg: msg@ },
            ExGatesReq::HelloToMe { msg } => ReqModel::HelloToMe { msg: msg@ },
            ExGatesReq::Time {  } => ReqModel::Time,
        }
    }
}

impl View for ExGatesRes {
    type V = ResModel;

    open spec fn view(&self) -> ResModel {
        match self {
            ExGatesRes::Pong {  } => ResModel::Pong,
            ExGatesRes::Hello { msg } => ResModel::Hello { msg: msg@ },
            ExGatesRes::Time { time } => ResModel::Time { time: time@ },
        }
    }
}

impl Clone for ExGatesReq {
    fn clone(&self) -> (r: Self)
        ensures
            r@ == self@,
    {
        match self {
            ExGatesReq::Ping {  } => ExGatesReq::Ping {  },
            ExGatesReq::Hello { msg } => ExGatesReq::Hello { msg: msg.clone() },
            ExGatesReq::HelloToMe { msg } => ExGatesReq::HelloToMe { msg: msg.clone() },
            ExGatesReq::Time {  } => ExGatesReq::Time {  },
        }
    }
}

impl Clone for ExGatesRes {
    fn clone(&self) -> (r: Self)
        ensures
            r@ == self@,
    {
        match self {
            ExGatesRes::Pong {  } => ExGatesRes::Pong {  },
            ExGatesRes::Hello { msg } => ExGatesRes::Hello { msg: msg.clone() },
            ExGatesRes::Time { time } => ExGatesRes::Time { time: time.clone() },
        }
    }
}

/// The contract of the sample service: public, on port 2020 of this machine.
pub fn service_context() -> (r: Context<ExGatesReq, ExGatesRes>)
    ensures
        r.spec_origin() == (Origin::Local { port: 2020 }),
        !r.spec_internal(),
{
    Context::new(Origin::Local { port: 2020 }, false)
}

/// A message read backwards, as the sample service answers a `Hello`.
pub fn reverse(msg: &str) -> (r: String)
    ensures
        r@ == msg@.reverse(),
{
    let n = msg.unicode_len();
    let mut out = String::new();
    let mut i = n;
    while i > 0
        invariant
            i <= n,
            n == msg@.len(),
            out@ == msg@.subrange(i as int, n as int).reverse(),
        decreases i,
    {
        out.append(msg.substring_char(i - 1, i));
        i -= 1;
        assert(out@ =~= msg@.subrange(i as int, n as int).reverse());
    }
    assert(msg@.subrange(0, n as int) =~= msg@);
    out
}

/// An object that holds the tag alone.
pub open spec fn bare(tag: Seq<char>) -> Seq<MemberModel> {
    seq![(gates::tag_name(), Some(tag))]
}

/// An object that holds the tag and one text member.
pub open spec fn with_text(tag: Seq<char>, name: Seq<char>, text: Seq<char>) -> Seq<MemberModel> {
    seq![(gates::tag_name(), Some(tag)), (name, Some(text))]
}

/// What the two shapes hold: the tag, and in the second the member as long as it is not
/// called like the tag.
proof fn lemma_shapes(tag: Seq<char>, name: Seq<char>, text: Seq<char>)
    ensures
        wire::text_of(bare(tag), gates::tag_name()) == Some(tag),
        wire::text_of(with_text(tag, name, text), gates::tag_name()) == Some(tag),
        name != gates::tag_name() ==> wire::text_of(with_text(tag, name, text), name) == Some(text),
{
    reveal_with_fuel(wire::text_of, 3);
    let members = with_text(tag, name, text);
    assert(members.drop_first()[0] == members[1]);
}

/// The names used on the wire differ from each other.
proof fn lemma_names()
    ensures
        "msg"@ != gates::tag_name(),
        "time"@ != gates::tag_name(),
        "Ping"@ != "Hello"@,
        "Ping"@ != "HelloToMe"@,
        "Ping"@ != "Time"@,
        "Hello"@ != "HelloToMe"@,
        "Hello"@ != "Time"@,
        "HelloToMe"@ != "Time"@,
        "Pong"@ != "Hello"@,
        "Pong"@ != "Time"@,
{
    reveal_strlit("gate");
    reveal_strlit("msg");
    reveal_strlit("time");
    reveal_strlit("Ping");
    reveal_strlit("Pong");
    reveal_strlit("Hello");
    reveal_strlit("HelloToMe");
    reveal_strlit("Time");
    assert("msg"@.len() == 3);
    assert("gate"@.len() == 4);
    assert("time"@[0] == 't');
    assert("gate"@[0] == 'g');
    assert("Ping"@.len() == 4);
    assert("Hello"@.len() == 5);
    assert("HelloToMe"@.len() == 9);
    assert("Time"@[0] == 'T');
    assert("Ping"@[0] == 'P');
    assert("Pong"@[0] == 'P');
    assert("Pong"@.len() == 4);
}

impl Gates for ExGatesReq {
    open spec fn wire(gate: ReqModel) -> Seq<MemberModel> {
        match gate {
            ReqModel::Ping => bare("Ping"@),
            ReqModel::Hello { msg } => with_text("Hello"@, "msg"@, msg),
            ReqModel::HelloToMe { msg } => with_text("HelloToMe"@, "msg"@, msg),
            ReqModel::Time => bare("Time"@),
        }
    }

    open spec fn read(members: Seq<MemberModel>) -> Option<ReqModel> {
        match wire::text_of(members, gates::tag_name()) {
            Some(tag) => if tag == "Ping"@ {
                Some(ReqModel::Ping)
            } else if tag == "Hello"@ {
                match wire::text_of(members, "msg"@) {
                    Some(msg) => Some(ReqModel::Hello { msg }),
                    None => None,
                }
            } else if tag == "HelloToMe"@ {
                match wire::text_of(members, "msg"@) {
                    Some(msg) => Some(ReqModel::HelloToMe { msg }),
                    None => None,
                }
            } else if tag == "Time"@ {
                Some(ReqModel::Time)
            } else {
                None
            },
            None => None,
        }
    }

    proof fn lemma_read_wire(gate: ReqModel) {
        lemma_names();
        match gate {
            ReqModel::Ping => lemma_shapes("Ping"@, "msg"@, "msg"@),
            ReqModel::Hello { msg } => lemma_shapes("Hello"@, "msg"@, msg),
            ReqModel::HelloToMe { msg } => lemma_shapes("HelloToMe"@, "msg"@, msg),
            ReqModel::Time => lemma_shapes("Time"@, "msg"@, "msg"@),
        }
    }

    proof fn lemma_read_needs_tag(members: Seq<MemberModel>) {
    }

    fn to_wire(&self) -> (r: WireObject) {
        let mut object = WireObject::new();
        match self {
            ExGatesReq::Ping {  } => {
                object.push_text("gate", "Ping");
            },
            ExGatesReq::Hello { msg } => {
                object.push_text("gate", "Hello");
                object.push_text("msg", msg.as_str());
            },
            ExGatesReq::HelloToMe { msg } => {
                object.push_text("gate", "HelloToMe");
                object.push_text("msg", msg.as_str());
            },
            ExGatesReq::Time {  } => {
                object.push_text("gate", "Time");
            },
        }
        assert(object@ =~= Self::wire(self@));
        object
    }

    fn from_wire(object: &WireObject) -> (r: Option<Self>) {
        match object.text("gate") {
            Some(tag) => {
                if same_text(tag.as_str(), "Ping") {
                    Some(ExGatesReq::Ping {  })
                } else if same_text(tag.as_str(), "Hello") {
                    match object.text("msg") {
                        Some(msg) => Some(ExGatesReq::Hello { msg: msg.clone() }),
                        None => None,
                    }
                } else if same_text(tag.as_str(), "HelloToMe") {
                    match object.text("msg") {
                        Some(msg) => Some(ExGatesReq::HelloToMe { msg: msg.clone() }),
                        None => None,
                    }
                } else if same_text(tag.as_str(), "Time") {
                    Some(ExGatesReq::Time {  })
                } else {
                    None
                }
            },
            None => None,
        }
    }
}

impl Gates for ExGatesRes {
    open spec fn wire(gate: ResModel) -> Seq<MemberModel> {
        match gate {
            ResModel::Pong => bare("Pong"@),
            ResModel::Hello { msg } => with_text("Hello"@, "msg"@, msg),
            ResModel::Time { time } => with_text("Time"@, "time"@, time),
        }
    }

    open spec fn read(members: Seq<MemberModel>) -> Option<ResModel> {
        match wire::text_of(members, gates::tag_name()) {
            Some(tag) => if tag == "Pong"@ {
                Some(ResModel::Pong)
            } else if tag == "Hello"@ {
                match wire::text_of(members, "msg"@) {
                    Some(msg) => Some(ResModel::Hello { msg }),
                    None => None,
                }
            } else if tag == "Time"@ {
                match wire::text_of(members, "time"@) {
                    Some(time) => Some(ResModel::Time { time }),
                    None => None,
                }
            } else {
                None
            },
            None => None,
        }
    }

    proof fn lemma_read_wire(gate: ResModel) {
        lemma_names();
        match gate {
            ResModel::Pong => lemma_shapes("Pong"@, "msg"@, "msg"@),
            ResModel::Hello { msg } => lemma_shapes("Hello"@, "msg"@, msg),
            ResModel::Time { time } => lemma_shapes("Time"@, "time"@, time),
        }
    }

    proof fn lemma_read_needs_tag(members: Seq<MemberModel>) {
    }

    fn to_wire(&self) -> (r: WireObject) {
        let mut object = WireObject::new();
        match self {
            ExGatesRes::Pong {  } => {
                object.push_text("gate", "Pong");
            },
            ExGatesRes::Hello { msg } => {
                object.push_text("gate", "Hello");
                object.push_text("msg", msg.as_str());
            },
            ExGatesRes::Time { time } => {
                object.push_text("gate", "Time");
                object.push_text("time", time.as_str());
            },
        }
        assert(object@ =~= Self::wire(self@));
        object
    }

    fn from_wire(object: &WireObject) -> (r: Option<Self>) {
        match object.text("gate") {
            Some(tag) => {
                if same_text(tag.as_str(), "Pong") {
                    Some(ExGatesRes::Pong {  })
                } else if same_text(tag.as_str(), "Hello") {
                    match object.text("msg") {
                        Some(msg) => Some(ExGatesRes::Hello { msg: msg.clone() }),
                        None => None,
                    }
                } else if same_text(tag.as_str(), "Time") {
                    match object.text("time") {
                        Some(time) => Some(ExGatesRes::Time { time: time.clone() }),
                        None => None,
                    }
                } else {
                    None
                }
            },
            None => None,
        }
    }
}

} // verus!
