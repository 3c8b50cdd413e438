//! The bounded event queue and the dispatcher's decisions.  Publishing is
//! fire-and-forget: a full queue drops the event and reports it, it never
//! blocks and never fails the publisher.  The dispatcher receives serially
//! and turns each event into the independent actions its handler performs.

use vstd::prelude::*;

use crate::mailer::{template_text, Mail};
use crate::text::{json_escape, json_escaped};

verus! {

/// What an analysis request hands to the asynchronous side: the repository,
/// where its clone lives, and whom to notify.
#[derive(Clone, Debug, PartialEq, Eq)]
pub struct AnalyzeRepositoryData {
    pub repo_id: String,
    pub clone_path: String,
    pub owner_email: String,
}

/// A unit of asynchronous work: a plain notification, or the initiation of
/// documentation generation for a freshly analyzed repository.
#[derive(Clone, Debug, PartialEq, Eq)]
pub enum Event {
    SendEmail,
    InitDocsGen(AnalyzeRepositoryData),
}

/// How many events the queue holds before publishes are dropped.
pub const EVENT_QUEUE_CAPACITY: usize = 100;

/// What one publish does to the queued events: appends when there is room,
/// drops the event otherwise.
pub open spec fn publish_model(items: Seq<Event>, capacity: nat, e: Event) -> Seq<Event> {
    if items.len() < capacity {
        items.push(e)
    } else {
        items
    }
}

/// Publishing never grows the queue past its capacity, and publishing onto a
/// full queue drops the event, leaving the queue unchanged: producers can
/// publish any number of events without blocking and without unbounded
/// queueing.
pub proof fn lemma_publish_bounded(items: Seq<Event>, capacity: nat, e: Event)
    requires
        items.len() <= capacity,
    ensures
        publish_model(items, capacity, e).len() <= capacity,
        items.len() == capacity ==> publish_model(items, capacity, e) == items,
{
}

/// A bounded multi-producer/single-consumer work queue of events.  The
/// buffer policy lives here; the runtime wraps it for concurrent access.
pub struct EventQueue {
    items: Vec<Event>,
    capacity: usize,
}

impl EventQueue {
    /// The queued events, oldest first.
    pub closed spec fn events(self) -> Seq<Event> {
        self.items@
    }

    /// The bound the queue was created with.
    pub closed spec fn cap(self) -> nat {
        self.capacity as nat
    }

    /// The queue never holds more events than its capacity.
    pub open spec fn inv(self) -> bool {
        self.events().len() <= self.cap()
    }

    /// Creates the empty queue with the standard capacity.
    pub fn new() -> (r: EventQueue)
        ensures
            r.inv(),
            r.events() == Seq::<Event>::empty(),
            r.cap() == EVENT_QUEUE_CAPACITY as nat,
    {
        EventQueue { items: Vec::new(), capacity: EVENT_QUEUE_CAPACITY }
    }

    /// How many events are queued.
    pub fn len(&self) -> (r: usize)
        ensures
            r == self.events().len(),
    {
        self.items.len()
    }

    /// Attempts to enqueue an event.  Never blocks and never fails: when the
    /// queue is full the event is dropped and `false` reports it.
    pub fn publish(&mut self, e: Event) -> (accepted: bool)
        requires
            old(self).inv(),
        ensures
            final(self).inv(),
            final(self).cap() == old(self).cap(),
            final(self).events() == publish_model(old(self).events(), old(self).cap(), e),
            accepted == (old(self).events().len() < old(self).cap()),
    {
        if self.items.len() < self.capacity {
            self.items.push(e);
            true
        } else {
            false
        }
    }

    /// Receives the oldest queued event, if any.
    pub fn recv(&mut self) -> (r: Option<Event>)
        requires
            old(self).inv(),
        ensures
            final(self).inv(),
            final(self).cap() == old(self).cap(),
            old(self).events().len() == 0 ==> (r is None && final(self).events() == old(
                self,
            ).events()),
            old(self).events().len() > 0 ==> (r matches Some(e) && e == old(self).events()[0]
                && final(self).events() == old(self).events().skip(1)),
    {
        if self.items.len() == 0 {
            None
        } else {
            let e = self.items.remove(0);
            proof {
                assert(self.items@ =~= old(self).items@.skip(1));
            }
            Some(e)
        }
    }
}

/// One side effect a dispatched handler performs.
#[derive(Clone, Debug, PartialEq, Eq)]
pub enum HandlerAction {
    /// Send this message through the mailer.
    SendMail(Mail),
    /// Post this JSON body to this documentation-service endpoint.
    PostDocsGen { url: String, body: String },
}

/// Where the handler posts documentation-initiation requests.
pub open spec fn handler_docs_url_text() -> Seq<char> {
    "http://code-lens-wiki:3000/docs-gen"@
}

/// The subject of the handler's notification for a repository id.
pub open spec fn handler_subject_text(repo_id: Seq<char>) -> Seq<char> {
    "Documentation generation started for repository "@ + repo_id
}

/// The JSON body the handler posts: the repository id and its clone path.
pub open spec fn handler_body_text(repo_id: Seq<char>, clone_path: Seq<char>) -> Seq<char> {
    "{\"repo_id\":\""@ + json_escaped(repo_id) + "\",\"repo_path\":\""@ + json_escaped(clone_path)
        + "\"}"@
}

/// Decides what the handler of one dequeued event does.  A plain
/// notification event carries no payload and nothing to act on; a
/// documentation-initiation event notifies the owner and posts the
/// generation request.  Each action runs as its own detached task.
pub fn handler_actions(event: &Event) -> (r: Vec<HandlerAction>)
    ensures
        event is SendEmail ==> r@.len() == 0,
        event matches Event::InitDocsGen(d) ==> {
            &&& r@.len() == 2
            &&& (r@[0] matches HandlerAction::SendMail(m) && m.to@ == d.owner_email@ && m.subject@
                == handler_subject_text(d.repo_id@) && m.html@ == template_text("doc-gen"@))
            &&& (r@[1] matches HandlerAction::PostDocsGen { url, body } && url@
                == handler_docs_url_text() && body@ == handler_body_text(
                d.repo_id@,
                d.clone_path@,
            ))
        },
{
    let mut r: Vec<HandlerAction> = Vec::new();
    match event {
        Event::SendEmail => {},
        Event::InitDocsGen(d) => {
            let subject = String::from_str(
                "Documentation generation started for repository ",
            ).concat(d.repo_id.as_str());
            proof {
                assert(subject@ =~= handler_subject_text(d.repo_id@));
            }
            let empty_context: Vec<(String, String)> = Vec::new();
            let html = crate::mailer::TemplateRenderer::render("doc-gen", &empty_context);
            proof {
                assert(crate::mailer::context_view(empty_context@) =~= Seq::<
                    (Seq<char>, Seq<char>),
                >::empty());
            }
            let mail = Mail { to: d.owner_email.clone(), subject, html };
            r.push(HandlerAction::SendMail(mail));
            let body = String::from_str("{\"repo_id\":\"").concat(
                json_escape(d.repo_id.as_str()).as_str(),
            ).concat("\",\"repo_path\":\"").concat(
                json_escape(d.clone_path.as_str()).as_str(),
            ).concat("\"}");
            proof {
                assert(body@ =~= handler_body_text(d.repo_id@, d.clone_path@));
            }
            r.push(
                HandlerAction::PostDocsGen {
                    url: String::from_str("http://code-lens-wiki:3000/docs-gen"),
                    body,
                },
            );
        },
    }
    r
}

} // verus!
