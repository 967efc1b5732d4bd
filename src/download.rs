use crate::error::PlaylistError;
use crate::playlist::{add_playlist, add_verdict};
use crate::registry::Registry;
use crate::store::{persist_text, persisted_as};
use vstd::prelude::*;
use vstd::string::*;

verus! {

/// The views of a sequence of strings.
pub open spec fn strings_view(v: Seq<String>) -> Seq<Seq<char>> {
    v.map_values(|s: String| s@)
}

/// The path of the registry file under the base directory.
pub open spec fn playlist_file_spec(base: Seq<char>) -> Seq<char> {
    base + "\\playlists.json"@
}

/// The path of the download archive under the base directory.
pub open spec fn archive_spec(base: Seq<char>) -> Seq<char> {
    base + "\\myarchive.txt"@
}

/// Where the downloader writes the items of the playlist `name`.
pub open spec fn output_template_spec(base: Seq<char>, name: Seq<char>) -> Seq<char> {
    base + "\\"@ + name + "\\%(title)s-%(id)s.%(ext)s"@
}

/// The arguments that make the downloader update itself.
pub open spec fn update_args_spec() -> Seq<Seq<char>> {
    seq!["-U"@]
}

/// The arguments that make the downloader fetch the playlist `name` at `url`.
pub open spec fn download_args_spec(base: Seq<char>, name: Seq<char>, url: Seq<char>) -> Seq<
    Seq<char>,
> {
    seq![
        "-ciw"@,
        "-f m4a"@,
        "--embed-thumbnail"@,
        "--download-archive"@,
        archive_spec(base),
        "--restrict-filenames"@,
        "-o"@,
        output_template_spec(base, name),
        url,
    ]
}

/// The path of the registry file under the base directory `base`.
pub fn playlist_file_path(base: &str) -> (r: String)
    ensures
        r@ == playlist_file_spec(base@),
{
    let mut p = String::from_str(base);
    p.append("\\playlists.json");
    p
}

/// The path of the download archive under the base directory `base`.
pub fn archive_path(base: &str) -> (r: String)
    ensures
        r@ == archive_spec(base@),
{
    let mut p = String::from_str(base);
    p.append("\\myarchive.txt");
    p
}

/// The arguments that make the downloader update itself.
pub fn update_args() -> (r: Vec<String>)
    ensures
        strings_view(r@) == update_args_spec(),
{
    let mut args: Vec<String> = Vec::new();
    args.push(String::from_str("-U"));
    assert(strings_view(args@) =~= update_args_spec());
    args
}

/// The arguments that make the downloader fetch the playlist `name` at `url`
/// into its own folder under `base`, skipping what the archive lists.
pub fn download_args(base: &str, name: &str, url: &str) -> (r: Vec<String>)
    ensures
        strings_view(r@) == download_args_spec(base@, name@, url@),
{
    let mut output = String::from_str(base);
    output.append("\\");
    output.append(name);
    output.append("\\%(title)s-%(id)s.%(ext)s");
    let mut args: Vec<String> = Vec::new();
    args.push(String::from_str("-ciw"));
    args.push(String::from_str("-f m4a"));
    args.push(String::from_str("--embed-thumbnail"));
    args.push(String::from_str("--download-archive"));
    args.push(archive_path(base));
    args.push(String::from_str("--restrict-filenames"));
    args.push(String::from_str("-o"));
    args.push(output);
    args.push(String::from_str(url));
    assert(strings_view(args@) =~= download_args_spec(base@, name@, url@));
    args
}

/// What a run was asked to do.
pub enum Request {
    /// Download every tracked playlist.
    All,
    /// Download one playlist, with its URL given or looked up by name, and
    /// track it first where `save` is set.
    One { save: bool, name: String, url: Option<String> },
}

/// Where a run stands.
#[derive(Clone, Copy, Debug, PartialEq, Eq, Structural)]
pub enum Stage {
    /// The downloader was asked to update itself.
    Updating,
    /// The registry file was asked to be written.
    Saving,
    /// A failure to track the playlist was reported; the download goes on.
    Warning,
    /// The downloader was started for the target of this index.
    Downloading(usize),
    /// Every download was started.
    Succeeded,
    /// The run stopped on this error.
    Failed(PlaylistError),
}

/// What the caller is to do next. After each step but the last it reports
/// whether the step succeeded: the process started, the file was written.
#[derive(Debug, PartialEq, Eq)]
pub enum Step {
    /// Start the downloader with these arguments, and wait for it.
    Launch(Vec<String>),
    /// Write this text to the registry file, in place of what it holds.
    Persist(String),
    /// Tell the user that tracking the playlist failed; the run goes on.
    Warn(PlaylistError),
    /// The run is over, with this outcome.
    Done(Result<(), PlaylistError>),
}

/// One download operation: an update of the downloader, then one start of it
/// for each target, in order.
pub struct DownloadRun {
    pub base: String,
    pub request: Request,
    /// The (name, URL) pairs to download, in the order they are started.
    pub targets: Vec<(String, String)>,
    pub stage: Stage,
}

/// The stage that follows `stage`, for a run over `n` targets, once the step
/// it announced has succeeded (`ok`) or not. The update stage is left out: what
/// follows it depends on the request.
pub open spec fn after(stage: Stage, n: int, ok: bool) -> Stage {
    match stage {
        Stage::Updating => stage,
        Stage::Saving => if ok {
            Stage::Downloading(0)
        } else {
            Stage::Warning
        },
        Stage::Warning => Stage::Downloading(0),
        Stage::Downloading(i) => if !ok {
            Stage::Failed(PlaylistError::DownloadLaunchFailed)
        } else if i + 1 < n {
            Stage::Downloading((i + 1) as usize)
        } else {
            Stage::Succeeded
        },
        Stage::Succeeded => Stage::Succeeded,
        Stage::Failed(e) => Stage::Failed(e),
    }
}

/// The stage reached from `stage` after the outcomes `oks`, one per step.
pub open spec fn run_from(stage: Stage, n: int, oks: Seq<bool>) -> Stage
    decreases oks.len(),
{
    if oks.len() == 0 {
        stage
    } else {
        run_from(after(stage, n, oks[0]), n, oks.drop_first())
    }
}

/// How many times the downloader is started for a target on the way from
/// `stage` through the outcomes `oks`.
pub open spec fn launches_from(stage: Stage, n: int, oks: Seq<bool>) -> nat
    decreases oks.len(),
{
    if oks.len() == 0 {
        0
    } else {
        let next = after(stage, n, oks[0]);
        (if next is Downloading {
            1nat
        } else {
            0nat
        }) + launches_from(next, n, oks.drop_first())
    }
}

/// `step` is what a run over `targets` announces on reaching `stage`, for
/// every stage but the update and the save.
pub open spec fn announces(
    step: Step,
    stage: Stage,
    base: Seq<char>,
    targets: Seq<(String, String)>,
) -> bool {
    match stage {
        Stage::Downloading(i) => step matches Step::Launch(v) && strings_view(v@)
            == download_args_spec(base, targets[i as int].0@, targets[i as int].1@),
        Stage::Warning => step == Step::Warn(PlaylistError::FileWriteFailed),
        Stage::Succeeded => step == Step::Done(Ok(())),
        Stage::Failed(e) => step == Step::Done(Err(e)),
        _ => false,
    }
}

impl DownloadRun {
    pub open spec fn wf(&self) -> bool {
        &&& match self.stage {
            Stage::Downloading(i) => i < self.targets@.len(),
            Stage::Saving | Stage::Warning => self.targets@.len() >= 1,
            _ => true,
        }
        &&& self.request is One ==> self.targets@.len() <= 1
    }

    /// A run that downloads every playlist of `playlists`. The first step is
    /// the update of the downloader.
    pub fn download_playlists(base: &str, playlists: &Registry) -> (r: (DownloadRun, Step))
        requires
            playlists.wf(),
        ensures
            r.0.wf(),
            r.0.base@ == base@,
            r.0.request is All,
            r.0.stage == Stage::Updating,
            crate::registry::names_unique(r.0.targets@),
            crate::registry::entries_map(r.0.targets@) == playlists@,
            r.0.targets@.len() == 0 <==> playlists@ == Map::<Seq<char>, Seq<char>>::empty(),
            r.1 matches Step::Launch(v) && strings_view(v@) == update_args_spec(),
    {
        let targets = playlists.entries();
        proof {
            crate::registry::lemma_entries_map_empty(targets@);
        }
        let run = DownloadRun {
            base: String::from_str(base),
            request: Request::All,
            targets,
            stage: Stage::Updating,
        };
        (run, Step::Launch(update_args()))
    }

    /// A run that downloads the one playlist `name`, at `url` or at the URL
    /// tracked under `name`, and first tracks it where `save` is set. The first
    /// step is the update of the downloader.
    pub fn download_playlist(base: &str, save: bool, name: &str, url: Option<&str>) -> (r: (
        DownloadRun,
        Step,
    ))
        ensures
            r.0.wf(),
            r.0.base@ == base@,
            r.0.request matches Request::One { save: s, name: n, url: u } && s == save && n@
                == name@ && match url {
                Some(x) => u matches Some(y) && y@ == x@,
                None => u is None,
            },
            r.0.targets@.len() == 0,
            r.0.stage == Stage::Updating,
            r.1 matches Step::Launch(v) && strings_view(v@) == update_args_spec(),
    {
        let url = match url {
            Some(u) => Some(String::from_str(u)),
            None => None,
        };
        let run = DownloadRun {
            base: String::from_str(base),
            request: Request::One { save, name: String::from_str(name), url },
            targets: Vec::new(),
            stage: Stage::Updating,
        };
        (run, Step::Launch(update_args()))
    }

    /// The step that announces a stage reached after the update.
    fn announce(&self) -> (r: Step)
        requires
            self.wf(),
            !(self.stage is Updating),
            !(self.stage is Saving),
        ensures
            announces(r, self.stage, self.base@, self.targets@),
    {
        match self.stage {
            Stage::Downloading(i) => Step::Launch(
                download_args(self.base.as_str(), self.targets[i].0.as_str(), self.targets[i].1.as_str()),
            ),
            Stage::Warning => Step::Warn(PlaylistError::FileWriteFailed),
            Stage::Succeeded => Step::Done(Ok(())),
            Stage::Failed(e) => Step::Done(Err(e)),
            _ => Step::Done(Ok(())),
        }
    }

    /// Moves the run on, given whether the step it last announced succeeded,
    /// and returns the next step. `playlists` is the registry that a single
    /// download with `save` set tracks its playlist in.
    pub fn advance(&mut self, playlists: &mut Registry, ok: bool) -> (r: Step)
        requires
            old(self).wf(),
            old(playlists).wf(),
        ensures
            final(self).wf(),
            final(playlists).wf(),
            final(self).base == old(self).base,
            final(self).request == old(self).request,
            // After the update.
            old(self).stage !is Updating ==> {
                &&& final(self).targets == old(self).targets
                &&& final(playlists)@ == old(playlists)@
                &&& final(self).stage == after(old(self).stage, old(self).targets@.len() as int, ok)
                &&& announces(r, final(self).stage, final(self).base@, final(self).targets@)
            },
            // The update could not be started: nothing else is done.
            old(self).stage is Updating && !ok ==> {
                &&& final(self).stage == Stage::Failed(PlaylistError::UpdateCheckFailed)
                &&& r == Step::Done(Err(PlaylistError::UpdateCheckFailed))
                &&& final(playlists)@ == old(playlists)@
            },
            // Every playlist: each target is started in turn.
            old(self).stage is Updating && ok && old(self).request is All ==> {
                &&& final(self).targets == old(self).targets
                &&& final(playlists)@ == old(playlists)@
                &&& final(self).stage == if old(self).targets@.len() == 0 {
                    Stage::Succeeded
                } else {
                    Stage::Downloading(0)
                }
                &&& announces(r, final(self).stage, final(self).base@, final(self).targets@)
            },
            // One playlist: its URL is the one given, else the one tracked.
            old(self).stage is Updating && ok ==> (old(self).request matches Request::One {
                save,
                name,
                url,
            } ==> {
                let found: Option<Seq<char>> = match url {
                    Some(u) => Some(u@),
                    None => if old(playlists)@.contains_key(name@) {
                        Some(old(playlists)@[name@])
                    } else {
                        None
                    },
                };
                match found {
                    None => {
                        &&& final(self).stage == Stage::Failed(PlaylistError::NotFound)
                        &&& r == Step::Done(Err(PlaylistError::NotFound))
                        &&& final(playlists)@ == old(playlists)@
                    },
                    Some(u) => {
                        let verdict = add_verdict(old(playlists)@, name@, u);
                        &&& final(self).targets@.len() == 1
                        &&& final(self).targets@[0].0@ == name@
                        &&& final(self).targets@[0].1@ == u
                        &&& !save ==> {
                            &&& final(self).stage == Stage::Downloading(0)
                            &&& announces(r, final(self).stage, final(self).base@, final(self).targets@)
                            &&& final(playlists)@ == old(playlists)@
                        }
                        &&& save && verdict is Err ==> {
                            &&& final(self).stage == Stage::Warning
                            &&& r == Step::Warn(verdict->Err_0)
                            &&& final(playlists)@ == old(playlists)@
                        }
                        &&& save && verdict is Ok ==> {
                            &&& final(playlists)@ == old(playlists)@.insert(name@, u)
                            &&& final(self).stage == Stage::Saving
                            &&& r matches Step::Persist(t) && persisted_as(final(playlists)@, t@)
                        }
                    },
                }
            }),
    {
        match self.stage {
            Stage::Updating => {
                if !ok {
                    self.stage = Stage::Failed(PlaylistError::UpdateCheckFailed);
                    return Step::Done(Err(PlaylistError::UpdateCheckFailed));
                }
                match &self.request {
                    Request::All => {
                        if self.targets.len() == 0 {
                            self.stage = Stage::Succeeded;
                        } else {
                            self.stage = Stage::Downloading(0);
                        }
                        self.announce()
                    },
                    Request::One { save, name, url } => {
                        let save = *save;
                        let name = name.clone();
                        let found = match url {
                            Some(u) => Some(u.clone()),
                            None => playlists.get(name.as_str()),
                        };
                        let u = match found {
                            Some(u) => u,
                            None => {
                                self.stage = Stage::Failed(PlaylistError::NotFound);
                                return Step::Done(Err(PlaylistError::NotFound));
                            },
                        };
                        let mut targets: Vec<(String, String)> = Vec::new();
                        targets.push((name.clone(), u.clone()));
                        self.targets = targets;
                        if !save {
                            self.stage = Stage::Downloading(0);
                            return self.announce();
                        }
                        match add_playlist(playlists, name.as_str(), u.as_str()) {
                            Err(e) => {
                                self.stage = Stage::Warning;
                                Step::Warn(e)
                            },
                            Ok(()) => match persist_text(playlists) {
                                Ok(t) => {
                                    self.stage = Stage::Saving;
                                    Step::Persist(t)
                                },
                                Err(e) => {
                                    self.stage = Stage::Warning;
                                    Step::Warn(e)
                                },
                            },
                        }
                    },
                }
            },
            Stage::Saving => {
                if ok {
                    self.stage = Stage::Downloading(0);
                } else {
                    self.stage = Stage::Warning;
                }
                self.announce()
            },
            Stage::Warning => {
                self.stage = Stage::Downloading(0);
                self.announce()
            },
            Stage::Downloading(i) => {
                if !ok {
                    self.stage = Stage::Failed(PlaylistError::DownloadLaunchFailed);
                } else if i < self.targets.len() - 1 {
                    self.stage = Stage::Downloading(i + 1);
                } else {
                    self.stage = Stage::Succeeded;
                }
                self.announce()
            },
            Stage::Succeeded => self.announce(),
            Stage::Failed(_) => self.announce(),
        }
    }
}

/// A run that has stopped stays stopped, whatever is reported to it: it starts
/// nothing more.
pub proof fn lemma_stopped_run_stays(e: PlaylistError, n: int, oks: Seq<bool>)
    ensures
        run_from(Stage::Failed(e), n, oks) == Stage::Failed(e),
        launches_from(Stage::Failed(e), n, oks) == 0,
    decreases oks.len(),
{
    if oks.len() > 0 {
        lemma_stopped_run_stays(e, n, oks.drop_first());
    }
}

/// When a download cannot be started, the run stops with that error, and no
/// later target is started, whatever is reported afterwards.
pub proof fn lemma_launch_failure_stops_run(i: usize, n: int, oks: Seq<bool>)
    requires
        i < n,
        oks.len() >= 1,
        !oks[0],
    ensures
        run_from(Stage::Downloading(i), n, oks) == Stage::Failed(PlaylistError::DownloadLaunchFailed),
        launches_from(Stage::Downloading(i), n, oks) == 0,
{
    lemma_stopped_run_stays(PlaylistError::DownloadLaunchFailed, n, oks.drop_first());
}

/// Once a failure to track the playlist has been reported, a single download
/// still starts the downloader, and succeeds where it starts.
pub proof fn lemma_warning_still_downloads(reported: bool)
    ensures
        after(Stage::Warning, 1, reported) == Stage::Downloading(0),
        run_from(Stage::Warning, 1, seq![reported, true]) == Stage::Succeeded,
        launches_from(Stage::Warning, 1, seq![reported, true]) == 1,
{
    let oks = seq![reported, true];
    assert(oks.drop_first() =~= seq![true]);
    assert(oks.drop_first().drop_first() =~= Seq::<bool>::empty());
    reveal_with_fuel(run_from, 3);
    reveal_with_fuel(launches_from, 3);
}

} // verus!
