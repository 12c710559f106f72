//! One controller connection: at most one job in flight, later jobs wait in
//! arrival order, and a job starts only after the one before it has emitted its
//! terminal event.

use vstd::prelude::*;
use crate::executor::{
    command_of, events_view, next, start, EventView, ExecView, Executor, Outcome, Stage, Step,
};
use crate::job::{Job, JobView};

verus! {

pub open spec fn is_terminal(s: Stage) -> bool {
    s == Stage::Complete || s == Stage::Failed
}

/// Jobs of one connection.
#[derive(Debug)]
pub struct Session {
    /// The job in flight, if any; never in a terminal stage.
    pub current: Option<Executor>,
    /// Jobs received while another was in flight, oldest first.
    pub pending: Vec<Job>,
}

pub struct SessionView {
    pub current: Option<ExecView>,
    pub pending: Seq<JobView>,
}

impl View for Session {
    type V = SessionView;

    open spec fn view(&self) -> SessionView {
        SessionView {
            current: match self.current {
                Some(e) => Some(e@),
                None => None,
            },
            pending: self.pending@.map_values(|j: Job| j@),
        }
    }
}

impl SessionView {
    pub open spec fn wf(self) -> bool {
        self.current matches Some(v) ==> v.inv() && !is_terminal(v.stage)
    }
}

/// Starts `j` on a connection with no job in flight: it becomes the job in
/// flight unless submission already ended it.
pub open spec fn begin_spec(sv: SessionView, j: JobView) -> (SessionView, Seq<EventView>) {
    let (v, e) = start(j);
    (
        SessionView {
            current: if is_terminal(v.stage) {
                None
            } else {
                Some(v)
            },
            pending: sv.pending,
        },
        e,
    )
}

/// A job arrives: it starts at once on an idle connection, else it waits at
/// the end of the queue and emits nothing.
pub open spec fn submit_spec(sv: SessionView, j: JobView) -> (SessionView, Seq<EventView>) {
    match sv.current {
        Some(_) => (SessionView { pending: sv.pending.push(j), ..sv }, seq![]),
        None => begin_spec(sv, j),
    }
}

/// The job in flight takes in outcome `o`; it stops being in flight once terminal.
pub open spec fn report_spec(sv: SessionView, o: Outcome) -> (SessionView, Seq<EventView>) {
    let (w, e) = next(sv.current->Some_0, o);
    (
        SessionView {
            current: if is_terminal(w.stage) {
                None
            } else {
                Some(w)
            },
            pending: sv.pending,
        },
        e,
    )
}

/// On an idle connection, the oldest waiting job starts.
pub open spec fn resume_spec(sv: SessionView) -> (SessionView, Seq<EventView>) {
    if sv.pending.len() == 0 {
        (sv, seq![])
    } else {
        begin_spec(SessionView { pending: sv.pending.drop_first(), ..sv }, sv.pending[0])
    }
}

/// The connection loop: while a job is in flight, the next outcome goes to it;
/// when none is, the oldest waiting job starts; with neither, it stops.
pub open spec fn serve(sv: SessionView, os: Seq<Outcome>) -> (SessionView, Seq<EventView>)
    decreases os.len(), sv.pending.len(),
{
    if sv.current is Some {
        if os.len() == 0 {
            (sv, seq![])
        } else {
            let (s1, e1) = report_spec(sv, os[0]);
            let (s2, e2) = serve(s1, os.drop_first());
            (s2, e1 + e2)
        }
    } else if sv.pending.len() > 0 {
        let (s1, e1) = resume_spec(sv);
        let (s2, e2) = serve(s1, os);
        (s2, e1 + e2)
    } else {
        (sv, seq![])
    }
}

impl Session {
    /// A connection with no jobs.
    pub fn new() -> (r: Session)
        ensures
            r@.current is None,
            r@.pending.len() == 0,
            r@.wf(),
    {
        Session { current: None, pending: Vec::new() }
    }

    /// Whether a job is in flight.
    pub fn is_busy(&self) -> (r: bool)
        ensures
            r == self@.current is Some,
    {
        self.current.is_some()
    }

    fn begin(&mut self, job: Job) -> (r: Step)
        requires
            old(self)@.current is None,
        ensures
            final(self)@ == begin_spec(old(self)@, job@).0,
            events_view(r.events@) == begin_spec(old(self)@, job@).1,
            r.command@ == command_of(start(job@).0),
            final(self)@.wf(),
    {
        let (ex, step) = Executor::start(job);
        if ex.stage == Stage::Complete || ex.stage == Stage::Failed {
            self.current = None;
        } else {
            self.current = Some(ex);
        }
        step
    }

    /// A job arrives. With no job in flight it starts at once, becomes the job
    /// in flight unless already ended, and its first events are returned;
    /// otherwise it waits at the end of the queue and nothing is emitted for it.
    pub fn submit(&mut self, job: Job) -> (r: Option<Step>)
        requires
            old(self)@.wf(),
        ensures
            final(self)@.wf(),
            final(self)@ == submit_spec(old(self)@, job@).0,
            old(self)@.current is Some ==> r is None,
            old(self)@.current is None ==> (r matches Some(s) && events_view(s.events@)
                == submit_spec(old(self)@, job@).1 && s.command@ == command_of(start(job@).0)),
    {
        if self.current.is_some() {
            let ghost jv = job@;
            self.pending.push(job);
            assert(self@.pending =~= old(self)@.pending.push(jv));
            None
        } else {
            Some(self.begin(job))
        }
    }

    /// The outcome of the in-flight job's last command. Only that job moves;
    /// once it is terminal the connection has no job in flight.
    pub fn report(&mut self, outcome: Outcome) -> (r: Step)
        requires
            old(self)@.wf(),
            old(self)@.current is Some,
        ensures
            final(self)@.wf(),
            final(self)@ == report_spec(old(self)@, outcome).0,
            events_view(r.events@) == report_spec(old(self)@, outcome).1,
            r.command@ == command_of(next(old(self)@.current->Some_0, outcome).0),
    {
        let mut ex = self.current.take().unwrap();
        let step = ex.advance(outcome);
        if !(ex.stage == Stage::Complete || ex.stage == Stage::Failed) {
            self.current = Some(ex);
        }
        step
    }

    /// With no job in flight, starts the oldest waiting job, if any; it leaves
    /// the queue and becomes the job in flight unless already ended.
    pub fn resume(&mut self) -> (r: Option<Step>)
        requires
            old(self)@.wf(),
            old(self)@.current is None,
        ensures
            final(self)@.wf(),
            final(self)@ == resume_spec(old(self)@).0,
            old(self)@.pending.len() == 0 ==> r is None,
            old(self)@.pending.len() > 0 ==> (r matches Some(s) && events_view(s.events@)
                == resume_spec(old(self)@).1 && s.command@ == command_of(start(old(self)@.pending[0]).0)),
    {
        if self.pending.is_empty() {
            None
        } else {
            let job = self.pending.remove(0);
            assert(self@.pending =~= old(self)@.pending.drop_first());
            Some(self.begin(job))
        }
    }
}

} // verus!
