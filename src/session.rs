use vstd::prelude::*;

use crate::document::{empty_slots, field_texts, DocumentView, NotificationDocument};
use crate::error::NotificationError;
use crate::template::{select_template, template_for, Template};

verus! {

/// Where one attempt to show a notification stands. The happy path runs from
/// `Unbuilt` to `Submitted`; a failed host step ends the attempt in `Failed`.
#[derive(Clone, Copy, Debug, PartialEq, Eq, Structural)]
pub enum Stage {
    Unbuilt,
    TemplateLoaded,
    SlotsBound,
    Constructed,
    Submitted,
    Failed(NotificationError),
}

/// The host step that an attempt asks for next, or its end.
#[derive(Debug)]
pub enum Action {
    /// Ask the host for the document of this layout.
    LoadTemplate(Template),
    /// Put this text into the text slot at this position.
    BindSlot(usize, String),
    /// Make a displayable notification from the finished document.
    Construct,
    /// Hand the notification to the host's notifier.
    Submit,
    /// Nothing more to do; this is the attempt's result.
    Finished(Result<(), NotificationError>),
}

/// An `Action` with its text as characters.
pub enum ActionView {
    LoadTemplate(Template),
    BindSlot(nat, Seq<char>),
    Construct,
    Submit,
    Finished(Result<(), NotificationError>),
}

impl View for Action {
    type V = ActionView;

    open spec fn view(&self) -> ActionView {
        match self {
            Action::LoadTemplate(t) => ActionView::LoadTemplate(*t),
            Action::BindSlot(i, s) => ActionView::BindSlot(*i as nat, s@),
            Action::Construct => ActionView::Construct,
            Action::Submit => ActionView::Submit,
            Action::Finished(r) => ActionView::Finished(*r),
        }
    }
}

/// The state of an attempt: the caller's fields, the chosen layout, what the
/// document's slots hold so far, how many slots are bound, and the stage.
pub struct RunView {
    pub fields: Seq<Seq<char>>,
    pub template: Template,
    pub texts: Seq<Seq<char>>,
    pub bound: nat,
    pub stage: Stage,
}

/// A state that an attempt can be in: the layout fits the fields, no slot is
/// bound before the layout is loaded, and while slots are being bound some
/// slot is still left.
pub open spec fn valid_run(v: RunView) -> bool {
    &&& template_for(v.fields.len()) == Some(v.template)
    &&& v.texts.len() == v.fields.len()
    &&& v.bound <= v.fields.len()
    &&& v.stage == Stage::Unbuilt ==> v.bound == 0
    &&& v.stage == Stage::TemplateLoaded ==> v.bound < v.fields.len()
}

/// The state in which an attempt on `fields` with layout `t` starts.
pub open spec fn initial_run(fields: Seq<Seq<char>>, t: Template) -> RunView {
    RunView { fields, template: t, texts: empty_slots(fields.len()), bound: 0, stage: Stage::Unbuilt }
}

/// `v` with another stage.
pub open spec fn with_stage(v: RunView, stage: Stage) -> RunView {
    RunView { fields: v.fields, template: v.template, texts: v.texts, bound: v.bound, stage }
}

/// The state after the host step that `v` asked for succeeded (`ok`) or
/// failed. An ended attempt stays as it is.
pub open spec fn step(v: RunView, ok: bool) -> RunView {
    match v.stage {
        Stage::Unbuilt => if ok {
            with_stage(v, Stage::TemplateLoaded)
        } else {
            with_stage(v, Stage::Failed(NotificationError::TemplateUnavailable))
        },
        Stage::TemplateLoaded => if ok {
            RunView {
                fields: v.fields,
                template: v.template,
                texts: v.texts.update(v.bound as int, v.fields[v.bound as int]),
                bound: v.bound + 1,
                stage: if v.bound + 1 >= v.fields.len() {
                    Stage::SlotsBound
                } else {
                    Stage::TemplateLoaded
                },
            }
        } else {
            with_stage(v, Stage::Failed(NotificationError::SlotIndexOutOfRange))
        },
        Stage::SlotsBound => if ok {
            with_stage(v, Stage::Constructed)
        } else {
            with_stage(v, Stage::Failed(NotificationError::NotificationConstructionFailed))
        },
        Stage::Constructed => if ok {
            with_stage(v, Stage::Submitted)
        } else {
            with_stage(v, Stage::Failed(NotificationError::SubmissionFailed))
        },
        _ => v,
    }
}

/// The host step that state `v` asks for.
pub open spec fn planned(v: RunView) -> ActionView {
    match v.stage {
        Stage::Unbuilt => ActionView::LoadTemplate(v.template),
        Stage::TemplateLoaded => ActionView::BindSlot(v.bound, v.fields[v.bound as int]),
        Stage::SlotsBound => ActionView::Construct,
        Stage::Constructed => ActionView::Submit,
        Stage::Submitted => ActionView::Finished(Ok(())),
        Stage::Failed(e) => ActionView::Finished(Err(e)),
    }
}

/// The state after the host steps had the outcomes `outcomes`, in order.
pub open spec fn run_after(v: RunView, outcomes: Seq<bool>) -> RunView
    decreases outcomes.len(),
{
    if outcomes.len() == 0 {
        v
    } else {
        run_after(step(v, outcomes[0]), outcomes.drop_first())
    }
}

/// The state after `k` host steps in a row succeeded.
pub open spec fn after_successes(v: RunView, k: nat) -> RunView
    decreases k,
{
    if k == 0 {
        v
    } else {
        after_successes(step(v, true), (k - 1) as nat)
    }
}

/// A step keeps a state valid.
pub proof fn lemma_step_valid(v: RunView, ok: bool)
    requires
        valid_run(v),
    ensures
        valid_run(step(v, ok)),
{
    if v.stage == Stage::TemplateLoaded && ok {
        assert(step(v, ok).texts.len() == v.texts.len());
    }
}

/// One attempt to show a notification: it decides each host step in turn,
/// and is told whether the step succeeded.
pub struct ToastRun {
    fields: Vec<String>,
    document: NotificationDocument,
    bound: usize,
    stage: Stage,
}

impl View for ToastRun {
    type V = RunView;

    closed spec fn view(&self) -> RunView {
        RunView {
            fields: field_texts(self.fields@),
            template: self.document@.template,
            texts: self.document@.texts,
            bound: self.bound as nat,
            stage: self.stage,
        }
    }
}

impl ToastRun {
    pub open spec fn wf(&self) -> bool {
        valid_run(self@)
    }

    /// Starts an attempt on `fields`, with the layout that has one slot per
    /// field. A field count that no layout has is refused here, before any
    /// host step is asked for.
    pub fn new(fields: Vec<String>) -> (r: Result<ToastRun, NotificationError>)
        ensures
            match r {
                Ok(run) => template_for(fields@.len()) == Some(run@.template) && run@ == initial_run(
                    field_texts(fields@),
                    run@.template,
                ) && run.wf(),
                Err(e) => template_for(fields@.len()) is None && e
                    == NotificationError::InvalidFieldCount,
            },
    {
        let template = match select_template(fields.len()) {
            Some(t) => t,
            None => return Err(NotificationError::InvalidFieldCount),
        };
        let document = NotificationDocument::from_template(template);
        let run = ToastRun { fields, document, bound: 0, stage: Stage::Unbuilt };
        assert(run@.texts =~= empty_slots(field_texts(run.fields@).len()));
        Ok(run)
    }

    /// The host step to take now, or the attempt's result once it has ended.
    pub fn next_action(&self) -> (r: Action)
        requires
            self.wf(),
        ensures
            r@ == planned(self@),
    {
        match self.stage {
            Stage::Unbuilt => Action::LoadTemplate(self.document.template()),
            Stage::TemplateLoaded => Action::BindSlot(self.bound, self.fields[self.bound].clone()),
            Stage::SlotsBound => Action::Construct,
            Stage::Constructed => Action::Submit,
            Stage::Submitted => Action::Finished(Ok(())),
            Stage::Failed(e) => Action::Finished(Err(e)),
        }
    }

    /// Records whether the step asked for by `next_action` succeeded.
    pub fn record(&mut self, succeeded: bool)
        requires
            old(self).wf(),
        ensures
            final(self).wf(),
            final(self)@ == step(old(self)@, succeeded),
    {
        proof {
            lemma_step_valid(self@, succeeded);
        }
        match self.stage {
            Stage::Unbuilt => {
                self.stage = if succeeded {
                    Stage::TemplateLoaded
                } else {
                    Stage::Failed(NotificationError::TemplateUnavailable)
                };
            },
            Stage::TemplateLoaded => {
                if succeeded {
                    let text = self.fields[self.bound].clone();
                    let _ = self.document.bind(self.bound, text);
                    self.bound = self.bound + 1;
                    if self.bound >= self.fields.len() {
                        self.stage = Stage::SlotsBound;
                    }
                } else {
                    self.stage = Stage::Failed(NotificationError::SlotIndexOutOfRange);
                }
            },
            Stage::SlotsBound => {
                self.stage = if succeeded {
                    Stage::Constructed
                } else {
                    Stage::Failed(NotificationError::NotificationConstructionFailed)
                };
            },
            Stage::Constructed => {
                self.stage = if succeeded {
                    Stage::Submitted
                } else {
                    Stage::Failed(NotificationError::SubmissionFailed)
                };
            },
            _ => {},
        }
    }

    /// Where the attempt stands.
    pub fn stage(&self) -> (r: Stage)
        ensures
            r == self@.stage,
    {
        self.stage
    }

    /// The document as bound so far.
    pub fn document(&self) -> (r: &NotificationDocument)
        ensures
            r@ == (DocumentView { template: self@.template, texts: self@.texts }),
    {
        &self.document
    }
}

} // verus!
