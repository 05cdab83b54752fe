//! What becomes of a rendered image: saving, copying, leaving.
use vstd::prelude::*;
use crate::board::messages::Action;
use crate::board::{BoardConfig, SketchBoard};

verus! {

/// A remembered directory is read from a file of at most this many bytes.
pub const SAVE_AS_LAST_DIR_MAX_BYTES: u64 = 10_000;

/// One thing to do with a rendered image.
#[derive(Clone, Copy, Debug, PartialEq, Eq, Structural)]
pub enum Job {
    /// Copy the path of the file saved last.
    CopyPath,
    Copy,
    Save,
    /// Ask where to save. The dialog blocks the window or not.
    SaveAs { modal: bool },
    /// Leave.
    Quit,
}

/// Whether these actions need the pixels of the image.
pub open spec fn wants_pixels(a: Action) -> bool {
    a == Action::SaveToClipboard || a == Action::SaveToFile || a == Action::SaveToFileAs
}

/// Whether some action needs the pixels of the image.
pub fn needs_pixels(actions: &Vec<Action>) -> (r: bool)
    ensures
        r == exists|i: int| 0 <= i < actions@.len() && wants_pixels(#[trigger] actions@[i]),
{
    let mut i: usize = 0;
    while i < actions.len()
        invariant
            i <= actions@.len(),
            forall|k: int| 0 <= k < i ==> !wants_pixels(#[trigger] actions@[k]),
        decreases actions.len() - i,
    {
        match actions[i] {
            Action::SaveToClipboard | Action::SaveToFile | Action::SaveToFileAs => {
                assert(wants_pixels(actions@[i as int]));
                return true;
            },
            _ => {},
        }
        i = i + 1;
    }
    false
}

/// Jobs, and the actions that wait until the user has chosen a file.
pub ghost struct Plan {
    pub jobs: Seq<Job>,
    pub later: Seq<Action>,
}

/// What one action comes to, unless it saves under a new name, and whether
/// that ends everything.
pub open spec fn job_of(a: Action, pixels: bool, config: BoardConfig) -> (Option<Job>, bool) {
    match a {
        Action::CopyFilepathToClipboard => (Some(Job::CopyPath), false),
        Action::SaveToClipboard => if pixels {
            (Some(Job::Copy), !config.auto_copy && config.close_on_copy)
        } else {
            (None, false)
        },
        Action::SaveToFile => if pixels {
            (Some(Job::Save), config.close_on_save)
        } else {
            (None, false)
        },
        Action::Exit => (None, true),
        Action::SaveToFileAs => (None, false),
    }
}

/// What actions come to, one after the other: leaving ends them, and what
/// follows a save under a new name waits for the user.
pub open spec fn plan_of(actions: Seq<Action>, pixels: bool, config: BoardConfig) -> Plan
    decreases actions.len(),
{
    if actions.len() == 0 {
        Plan { jobs: Seq::empty(), later: Seq::empty() }
    } else if actions[0] == Action::SaveToFileAs {
        let rest = actions.drop_first();
        if pixels {
            Plan {
                jobs: seq![Job::SaveAs { modal: config.early_exit_save_as || rest.len() > 0 }],
                later: rest,
            }
        } else {
            Plan { jobs: Seq::empty(), later: Seq::empty() }
        }
    } else {
        let (job, ends) = job_of(actions[0], pixels, config);
        let first = match job {
            Some(j) => seq![j],
            None => Seq::empty(),
        };
        if ends {
            Plan { jobs: first.push(Job::Quit), later: Seq::empty() }
        } else {
            let rest = plan_of(actions.drop_first(), pixels, config);
            Plan { jobs: first + rest.jobs, later: rest.later }
        }
    }
}

fn find_job(a: Action, pixels: bool, config: &BoardConfig) -> (r: (Option<Job>, bool))
    ensures
        r == job_of(a, pixels, *config),
{
    match a {
        Action::CopyFilepathToClipboard => (Some(Job::CopyPath), false),
        Action::SaveToClipboard => {
            if pixels {
                (Some(Job::Copy), !config.auto_copy && config.close_on_copy)
            } else {
                (None, false)
            }
        },
        Action::SaveToFile => {
            if pixels {
                (Some(Job::Save), config.close_on_save)
            } else {
                (None, false)
            }
        },
        Action::Exit => (None, true),
        Action::SaveToFileAs => (None, false),
    }
}

/// Works out what to do with a rendered image, and which actions wait until
/// the user has chosen a file.
pub fn handle_render_result(actions: &Vec<Action>, pixels: bool, config: &BoardConfig) -> (r: (
    Vec<Job>,
    Vec<Action>,
))
    ensures
        r.0@ == plan_of(actions@, pixels, *config).jobs,
        r.1@ == plan_of(actions@, pixels, *config).later,
{
    let mut jobs: Vec<Job> = Vec::new();
    let mut later: Vec<Action> = Vec::new();
    let mut i: usize = 0;
    let ghost whole = plan_of(actions@, pixels, *config);
    assert(actions@.skip(0) =~= actions@);
    assert(jobs@ + plan_of(actions@.skip(0), pixels, *config).jobs =~= whole.jobs);
    while i < actions.len()
        invariant
            i <= actions@.len(),
            later@.len() == 0,
            whole == plan_of(actions@, pixels, *config),
            whole.jobs == jobs@ + plan_of(actions@.skip(i as int), pixels, *config).jobs,
            whole.later == plan_of(actions@.skip(i as int), pixels, *config).later,
        decreases actions.len() - i,
    {
        let a: Action = actions[i];
        let ghost rest = actions@.skip(i as int);
        proof {
            assert(rest[0] == a);
            assert(rest.drop_first() =~= actions@.skip(i + 1));
        }
        if a == Action::SaveToFileAs {
            if pixels {
                let ghost before = jobs@;
                jobs.push(
                    Job::SaveAs {
                        modal: config.early_exit_save_as || i + 1 < actions.len(),
                    },
                );
                let mut k: usize = i + 1;
                while k < actions.len()
                    invariant
                        i < k <= actions@.len(),
                        later@ == actions@.subrange(i + 1, k as int),
                    decreases actions.len() - k,
                {
                    later.push(actions[k]);
                    assert(actions@.subrange(i + 1, k + 1) =~= actions@.subrange(
                        i + 1,
                        k as int,
                    ).push(actions@[k as int]));
                    k = k + 1;
                }
                proof {
                    assert(later@ =~= actions@.skip(i + 1));
                    assert(jobs@ =~= whole.jobs);
                }
            } else {
                assert(jobs@ =~= whole.jobs);
                assert(later@ =~= whole.later);
            }
            return (jobs, later);
        }
        let (job, ends): (Option<Job>, bool) = find_job(a, pixels, config);
        let ghost before = jobs@;
        if let Some(j) = job {
            jobs.push(j);
        }
        if ends {
            jobs.push(Job::Quit);
            proof {
                assert(jobs@ =~= whole.jobs);
                assert(later@ =~= whole.later);
            }
            return (jobs, later);
        }
        proof {
            let tail = plan_of(actions@.skip(i + 1), pixels, *config).jobs;
            assert(whole.jobs =~= jobs@ + tail);
        }
        i = i + 1;
    }
    proof {
        assert(jobs@ =~= whole.jobs);
        assert(later@ =~= whole.later);
    }
    (jobs, later)
}

/// Nothing is done after leaving, nor after asking for a file, and actions
/// wait only for the latter.
pub proof fn lemma_last_job_ends(actions: Seq<Action>, pixels: bool, config: BoardConfig)
    ensures
        ({
            let p = plan_of(actions, pixels, config);
            &&& forall|i: int|
                0 <= i < p.jobs.len() - 1 ==> !((#[trigger] p.jobs[i]) is Quit || p.jobs[i] is SaveAs)
            &&& p.later.len() > 0 ==> p.jobs.len() > 0 && p.jobs.last() is SaveAs
        }),
    decreases actions.len(),
{
    if actions.len() > 0 {
        lemma_last_job_ends(actions.drop_first(), pixels, config);
        let p = plan_of(actions, pixels, config);
        let rest = plan_of(actions.drop_first(), pixels, config);
        assert forall|i: int| 0 <= i < p.jobs.len() - 1 implies !((#[trigger] p.jobs[i]) is Quit
            || p.jobs[i] is SaveAs) by {
            if actions[0] != Action::SaveToFileAs && !job_of(actions[0], pixels, config).1 {
                let first = job_of(actions[0], pixels, config).0;
                if first is Some {
                    if i > 0 {
                        assert(p.jobs[i] == rest.jobs[i - 1]);
                    }
                } else {
                    assert(p.jobs[i] == rest.jobs[i]);
                }
            }
        }
        if p.later.len() > 0 && actions[0] != Action::SaveToFileAs {
            assert(p.jobs.last() == rest.jobs.last());
        }
    }
}

/// Where an image goes that is saved under a configured name.
#[derive(Clone, Copy, Debug, PartialEq, Eq, Structural)]
pub enum SaveTarget {
    /// To the standard output.
    Stdout,
    File,
    /// Nowhere: only one format is written, and the name is for another.
    Refused,
}

/// The name ends like this.
pub open spec fn ends_with(s: Seq<char>, end: Seq<char>) -> bool {
    s.len() >= end.len() && s.skip(s.len() - end.len()) == end
}

/// Where an image of this name goes.
pub open spec fn target_spec(name: Seq<char>) -> SaveTarget {
    if name == "-"@ {
        SaveTarget::Stdout
    } else if ends_with(name, ".png"@) {
        SaveTarget::File
    } else {
        SaveTarget::Refused
    }
}

/// Where an image of this name goes.
pub fn save_target(name: &str) -> (r: SaveTarget)
    ensures
        r == target_spec(name@),
{
    proof {
        reveal_strlit("-");
        reveal_strlit(".png");
    }
    let n: usize = name.unicode_len();
    if n == 1 && name.get_char(0) == '-' {
        assert(name@ =~= "-"@);
        return SaveTarget::Stdout;
    }
    assert(name@ != "-"@) by {
        if name@ == "-"@ {
            assert(name@[0] == '-');
        }
    }
    if n >= 4 && name.get_char(n - 4) == '.' && name.get_char(n - 3) == 'p' && name.get_char(n - 2)
        == 'n' && name.get_char(n - 1) == 'g' {
        assert(name@.skip(n - 4) =~= ".png"@);
        return SaveTarget::File;
    }
    proof {
        if ends_with(name@, ".png"@) {
            let e = name@.skip(n - 4);
            assert(e[0] == '.' && e[1] == 'p' && e[2] == 'n' && e[3] == 'g');
            assert(name@[n - 4] == e[0] && name@[n - 3] == e[1] && name@[n - 2] == e[2]
                && name@[n - 1] == e[3]);
        }
    }
    SaveTarget::Refused
}

/// What stands behind the sign for the home directory.
pub open spec fn home_rest(name: Seq<char>) -> Option<Seq<char>> {
    if name.len() >= 2 && name[0] == '~' && name[1] == '/' {
        Some(name.skip(2))
    } else {
        None
    }
}

/// The path below the home directory, where a name begins there.
pub fn below_home(name: &str) -> (r: Option<&str>)
    ensures
        match r {
            Some(rest) => home_rest(name@) == Some(rest@),
            None => home_rest(name@) is None,
        },
{
    let n: usize = name.unicode_len();
    if n >= 2 && name.get_char(0) == '~' && name.get_char(1) == '/' {
        let rest: &str = name.substring_char(2, n);
        assert(rest@ =~= name@.skip(2));
        return Some(rest);
    }
    None
}

/// A directory that the save dialog may open in.
#[derive(Debug)]
pub struct DirCandidate {
    pub path: String,
    /// It exists and is a directory.
    pub is_dir: bool,
}

/// A file may hold a remembered directory.
pub fn may_hold_dir(is_file: bool, bytes: u64) -> (r: bool)
    ensures
        r == (is_file && bytes <= SAVE_AS_LAST_DIR_MAX_BYTES),
{
    is_file && bytes <= SAVE_AS_LAST_DIR_MAX_BYTES
}

/// The better of two directories for the save dialog: the remembered one,
/// else that of the configured file, of those that exist.
pub open spec fn initial_dir_spec(
    last: Option<DirCandidate>,
    configured: Option<DirCandidate>,
) -> Option<Seq<char>> {
    if last is Some && last->0.is_dir {
        Some(last->0.path@)
    } else if configured is Some && configured->0.is_dir {
        Some(configured->0.path@)
    } else {
        None
    }
}

impl SketchBoard {
    /// The directory that the save dialog opens in: the remembered one, else
    /// that of the configured file, of those that exist.
    pub fn save_as_initial_dir(last: Option<DirCandidate>, configured: Option<DirCandidate>) -> (r:
        Option<String>)
        ensures
            match r {
                Some(p) => initial_dir_spec(last, configured) == Some(p@),
                None => initial_dir_spec(last, configured) is None,
            },
    {
        if let Some(d) = last {
            if d.is_dir {
                return Some(d.path);
            }
        }
        match configured {
            Some(d) => {
                if d.is_dir {
                    Some(d.path)
                } else {
                    None
                }
            },
            None => None,
        }
    }

    /// A file was saved: its path can be copied from now on.
    pub fn file_saved(&mut self, path: String)
        ensures
            *final(self) == (SketchBoard { last_saved_filepath: Some(path), ..*old(self) }),
    {
        self.last_saved_filepath = Some(path);
    }

    /// The save dialog is done, and the waiting actions go on; a file that
    /// was saved is the last one.
    pub fn followup(&mut self, saved: Option<String>)
        ensures
            *final(self) == (SketchBoard {
                last_saved_filepath: if saved is Some {
                    saved
                } else {
                    old(self).last_saved_filepath
                },
                ..*old(self)
            }),
    {
        if saved.is_some() {
            self.last_saved_filepath = saved;
        }
    }
}

/// What follows the save dialog.
#[derive(Clone, Copy, Debug, PartialEq, Eq, Structural)]
pub enum AfterSaveAs {
    Exit,
    /// The waiting actions go on.
    Followup,
    Nothing,
}

/// What follows the save dialog, once it closed and a file was `saved` or
/// not, with so many actions `waiting`.
pub fn after_save_as(saved: bool, config: &BoardConfig, waiting: usize) -> (r: AfterSaveAs)
    ensures
        r == if saved && config.early_exit_save_as {
            AfterSaveAs::Exit
        } else if saved || waiting > 0 {
            AfterSaveAs::Followup
        } else {
            AfterSaveAs::Nothing
        },
{
    if saved && config.early_exit_save_as {
        AfterSaveAs::Exit
    } else if saved || waiting > 0 {
        AfterSaveAs::Followup
    } else {
        AfterSaveAs::Nothing
    }
}

} // verus!
