//! What the host is asked to learn how the running application was itself
//! installed, and which package tools are at hand.

use crate::actions::{command, Action, ActionView, CommandView, Outcome, OutcomeView};
use crate::installer::Installer;
use crate::models::InstallType;
use crate::paths::{join_path, joined_path, HostDirs};
use crate::text::text_of;
use vstd::prelude::*;

verus! {

/// One piece of evidence: a question to the host, and the format that a
/// yes speaks for.
#[derive(Debug)]
pub struct Evidence {
    pub question: Action,
    pub speaks_for: InstallType,
}

/// A piece of evidence as text.
pub struct EvidenceView {
    pub question: ActionView,
    pub speaks_for: InstallType,
}

impl View for Evidence {
    type V = EvidenceView;

    open spec fn view(&self) -> EvidenceView {
        EvidenceView { question: self.question@, speaks_for: self.speaks_for }
    }
}

/// The pieces of evidence of a list as text.
pub open spec fn evidence_view(list: Seq<Evidence>) -> Seq<EvidenceView> {
    Seq::new(list.len(), |i: int| list[i]@)
}

/// The question whether `program` with `args` ends well.
pub open spec fn asks(program: Seq<char>, args: Seq<Seq<char>>, speaks_for: InstallType)
    -> EvidenceView {
    EvidenceView {
        question: ActionView::Probe(CommandView { program, args }),
        speaks_for,
    }
}

/// The evidence of how the application was installed, in the order in
/// which it is looked at: what the package managers say of it, whether an
/// AppImage's runtime started it, and, where the user has a home
/// directory, whether it runs from the user's own programs.
pub open spec fn self_install_evidence(home: Option<Seq<char>>) -> Seq<EvidenceView> {
    seq![
        asks("dpkg"@, seq!["-s"@, "autonomix"@], InstallType::Deb),
        asks("rpm"@, seq!["-q"@, "autonomix"@], InstallType::Rpm),
        asks("flatpak"@, seq!["info"@, "io.github.plebone.autonomix"@], InstallType::Flatpak),
        asks("snap"@, seq!["info"@, "autonomix"@], InstallType::Snap),
        EvidenceView {
            question: ActionView::EnvSet("APPIMAGE"@),
            speaks_for: InstallType::AppImage,
        },
    ] + match home {
        Some(dir) => seq![
            EvidenceView {
                question: ActionView::RunningFrom(joined_path(dir, ".local/bin/autonomix"@)),
                speaks_for: InstallType::Binary,
            },
        ],
        None => Seq::empty(),
    }
}

/// How far a detection has come, as text.
pub enum DetectionView {
    /// The evidence that is left, the first piece of which is being asked
    /// for.
    Asking(Seq<EvidenceView>),
    /// The detection is over: this is how the application was installed,
    /// as far as the evidence shows.
    Decided(Option<InstallType>),
}

/// The state of a detection with `evidence` left to look at.
pub open spec fn asking(evidence: Seq<EvidenceView>) -> DetectionView {
    if evidence.len() == 0 {
        DetectionView::Decided(None)
    } else {
        DetectionView::Asking(evidence)
    }
}

/// The format that the first yes among `answers` speaks for; none where no
/// answer is a yes. An answer that is missing counts as a no.
pub open spec fn first_yes(evidence: Seq<EvidenceView>, answers: Seq<OutcomeView>) -> Option<
    InstallType,
>
    decreases evidence.len(),
{
    if evidence.len() == 0 || answers.len() == 0 {
        None
    } else if answers[0] is Success {
        Some(evidence[0].speaks_for)
    } else {
        first_yes(evidence.drop_first(), answers.drop_first())
    }
}

impl DetectionView {
    /// What the host is asked now; nothing once the detection is over.
    pub open spec fn pending(self) -> Option<ActionView> {
        match self {
            DetectionView::Asking(evidence) => if evidence.len() > 0 {
                Some(evidence[0].question)
            } else {
                None
            },
            DetectionView::Decided(_) => None,
        }
    }

    /// The detection after the host has answered with `outcome`: a yes
    /// decides for the format the evidence speaks for, anything else leads
    /// to the next piece. Nothing changes a detection that is over.
    pub open spec fn advanced(self, outcome: OutcomeView) -> DetectionView {
        match self {
            DetectionView::Asking(evidence) => if evidence.len() > 0 && outcome is Success {
                DetectionView::Decided(Some(evidence[0].speaks_for))
            } else {
                asking(evidence.drop_first())
            },
            DetectionView::Decided(found) => DetectionView::Decided(found),
        }
    }

    /// The detection after the host has given `answers` in turn.
    pub open spec fn advanced_through(self, answers: Seq<OutcomeView>) -> DetectionView
        decreases answers.len(),
    {
        if answers.len() == 0 {
            self
        } else {
            self.advanced(answers[0]).advanced_through(answers.drop_first())
        }
    }
}

/// A detection of how the running application was installed.
#[derive(Debug)]
pub struct Detection {
    evidence: Vec<Evidence>,
    at: usize,
    found: Option<InstallType>,
}

impl View for Detection {
    type V = DetectionView;

    closed spec fn view(&self) -> DetectionView {
        if self.found is Some {
            DetectionView::Decided(self.found)
        } else {
            asking(evidence_view(self.evidence@).skip(self.at as int))
        }
    }
}

fn probe(program: &str, args: &[&str], speaks_for: InstallType) -> (evidence: Evidence)
    ensures
        evidence@ == asks(program@, Seq::new(args@.len(), |i: int| args@[i]@), speaks_for),
{
    Evidence { question: Action::Probe(command(program, args)), speaks_for }
}

/// The evidence of how the application was installed, on a host whose
/// user has the home directory `home`.
pub fn evidence_for(home: &Option<String>) -> (evidence: Vec<Evidence>)
    ensures
        evidence_view(evidence@) == self_install_evidence(text_of(*home)),
{
    let dpkg = ["-s", "autonomix"];
    let rpm = ["-q", "autonomix"];
    let flatpak = ["info", "io.github.plebone.autonomix"];
    let snap = ["info", "autonomix"];
    assert(Seq::new(2, |i: int| dpkg@[i]@) == seq!["-s"@, "autonomix"@]);
    assert(Seq::new(2, |i: int| rpm@[i]@) == seq!["-q"@, "autonomix"@]);
    assert(Seq::new(2, |i: int| flatpak@[i]@) == seq!["info"@, "io.github.plebone.autonomix"@]);
    assert(Seq::new(2, |i: int| snap@[i]@) == seq!["info"@, "autonomix"@]);
    let mut evidence: Vec<Evidence> = Vec::new();
    evidence.push(probe("dpkg", &dpkg, InstallType::Deb));
    evidence.push(probe("rpm", &rpm, InstallType::Rpm));
    evidence.push(probe("flatpak", &flatpak, InstallType::Flatpak));
    evidence.push(probe("snap", &snap, InstallType::Snap));
    evidence.push(
        Evidence {
            question: Action::EnvSet(String::from_str("APPIMAGE")),
            speaks_for: InstallType::AppImage,
        },
    );
    if let Some(dir) = home {
        evidence.push(
            Evidence {
                question: Action::RunningFrom(join_path(dir.as_str(), ".local/bin/autonomix")),
                speaks_for: InstallType::Binary,
            },
        );
    }
    evidence
}

/// Begins the detection of how the running application was installed.
pub fn detect_self_install_type() -> (detection: Detection)
    ensures
        exists|home: Option<Seq<char>>| detection@ == asking(self_install_evidence(home)),
{
    let dirs = HostDirs::detect();
    detect_self_install_type_on(&dirs)
}

/// Begins the detection of how the running application was installed, on
/// a host with the directories `dirs`.
pub fn detect_self_install_type_on(dirs: &HostDirs) -> (detection: Detection)
    ensures
        detection@ == asking(self_install_evidence(text_of(dirs.home))),
{
    let evidence = evidence_for(&dirs.home);
    assert(evidence_view(evidence@).skip(0) == evidence_view(evidence@));
    Detection { evidence, at: 0, found: None }
}

impl Detection {
    #[verifier::type_invariant]
    spec fn well_formed(self) -> bool {
        self.at <= self.evidence@.len()
    }

    /// What the host is asked now; nothing once the detection is over.
    pub fn pending(&self) -> (question: Option<Action>)
        ensures
            match question {
                Some(q) => self@.pending() == Some(q@),
                None => self@.pending() is None,
            },
    {
        proof {
            use_type_invariant(self);
        }
        if self.found.is_none() && self.at < self.evidence.len() {
            Some(self.evidence[self.at].question.duplicate())
        } else {
            None
        }
    }

    /// How the application was installed, once the detection is over:
    /// `Some(None)` says that no evidence was found.
    pub fn verdict(&self) -> (verdict: Option<Option<InstallType>>)
        ensures
            match verdict {
                Some(found) => self@ == DetectionView::Decided(found),
                None => self@ is Asking,
            },
    {
        proof {
            use_type_invariant(self);
        }
        if self.found.is_some() {
            Some(self.found)
        } else if self.at >= self.evidence.len() {
            Some(None)
        } else {
            None
        }
    }

    /// The detection after the host has answered with `outcome`.
    pub fn advance(self, outcome: Outcome) -> (next: Detection)
        ensures
            next@ == self@.advanced(outcome@),
    {
        proof {
            use_type_invariant(&self);
        }
        if self.found.is_some() || self.at >= self.evidence.len() {
            return self;
        }
        proof {
            let rest = evidence_view(self.evidence@).skip(self.at as int);
            assert(rest.drop_first() == evidence_view(self.evidence@).skip(self.at + 1));
        }
        match outcome {
            Outcome::Success => {
                let found = Some(self.evidence[self.at].speaks_for);
                Detection { evidence: self.evidence, at: self.at, found }
            },
            _ => Detection { evidence: self.evidence, at: self.at + 1, found: None },
        }
    }
}

/// A detection decides for the format of the first piece of evidence that
/// the host affirms, and for none where the host affirms nothing: once all
/// the evidence has been answered, the detection is over with exactly the
/// format that the first yes speaks for.
pub proof fn lemma_detection_finds_first_yes(
    evidence: Seq<EvidenceView>,
    answers: Seq<OutcomeView>,
)
    requires
        answers.len() == evidence.len(),
    ensures
        asking(evidence).advanced_through(answers) == DetectionView::Decided(
            first_yes(evidence, answers),
        ),
    decreases evidence.len(),
{
    if evidence.len() > 0 {
        if answers[0] is Success {
            lemma_decided_stays(Some(evidence[0].speaks_for), answers.drop_first());
        } else {
            lemma_detection_finds_first_yes(evidence.drop_first(), answers.drop_first());
        }
    }
}

/// Nothing that the host says changes a detection that is over.
pub proof fn lemma_decided_stays(found: Option<InstallType>, answers: Seq<OutcomeView>)
    ensures
        DetectionView::Decided(found).advanced_through(answers) == DetectionView::Decided(found),
    decreases answers.len(),
{
    if answers.len() > 0 {
        lemma_decided_stays(found, answers.drop_first());
    }
}

/// Which package tools the host has.
#[derive(Debug, Clone, Copy, PartialEq, Eq, Structural)]
pub struct Tools {
    pub dpkg: bool,
    pub rpm: bool,
    pub flatpak: bool,
    pub snap: bool,
}

/// The formats that a host with `tools` can install, in the order of
/// preference: a packaged format needs its tool, an AppImage and a bare
/// executable need nothing, and a source archive is never installed.
pub open spec fn installable(tools: Tools) -> Seq<InstallType> {
    (if tools.dpkg {
        seq![InstallType::Deb]
    } else {
        Seq::empty()
    }) + (if tools.rpm {
        seq![InstallType::Rpm]
    } else {
        Seq::empty()
    }) + seq![InstallType::AppImage] + (if tools.flatpak {
        seq![InstallType::Flatpak]
    } else {
        Seq::empty()
    }) + (if tools.snap {
        seq![InstallType::Snap]
    } else {
        Seq::empty()
    }) + seq![InstallType::Binary]
}

/// The question whether `tool` is at hand.
pub open spec fn tool_question(tool: Seq<char>) -> ActionView {
    ActionView::Probe(CommandView { program: "which"@, args: seq![tool] })
}

impl Installer {
    /// The question whether `tool` is at hand.
    pub fn tool_probe(tool: &str) -> (question: Action)
        ensures
            question@ == tool_question(tool@),
    {
        let args = [tool];
        assert(Seq::new(1, |i: int| args@[i]@) == seq![tool@]);
        Action::Probe(command("which", &args))
    }

    /// The formats that a host with `tools` can install.
    pub fn detect_available_installers(tools: &Tools) -> (available: Vec<InstallType>)
        ensures
            available@ == installable(*tools),
    {
        let mut available = Vec::new();
        if tools.dpkg {
            available.push(InstallType::Deb);
        }
        if tools.rpm {
            available.push(InstallType::Rpm);
        }
        available.push(InstallType::AppImage);
        if tools.flatpak {
            available.push(InstallType::Flatpak);
        }
        if tools.snap {
            available.push(InstallType::Snap);
        }
        available.push(InstallType::Binary);
        available
    }
}

} // verus!
