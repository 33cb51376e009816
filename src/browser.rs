//! The browser's decisions: what each key and each command result does to
//! the state, and which command or pane it asks for.

use vstd::prelude::*;
use crate::branch::{LocalBranch, RemoteBranch};
use crate::command::{CommandTag, GitCommand, CommandModel, ActionError, delete_flag, fetch_args,
    list_local_branches, list_remote_branches, switch_to_branch, switch_to_previous_branch,
    delete_branch, track_remote_branch, fetch};
use crate::listing::{parse_local_branches, parse_remote_branches, parse_local_listing,
    parse_remote_listing, line_views, local_views, remote_views};
use crate::tab::{Tab, stepped, typed, erased, refreshed, string_views};

verus! {

#[derive(Clone, Copy, PartialEq, Eq, Debug, Structural)]
pub enum BranchType {
    Local,
    Remote,
}

/// A key press, with Ctrl told apart from other modifiers.
#[derive(Clone, Copy, PartialEq, Eq, Debug, Structural)]
pub enum Key {
    Char(char),
    Ctrl(char),
    Up,
    Down,
    Enter,
    Tab,
    Backspace,
    Esc,
    Other,
}

/// What the host is asked to do.
#[derive(Clone, Debug)]
pub enum Action {
    /// Run git with these arguments, and report back with the tag.
    Run(GitCommand),
    /// Open a pane that runs git with these arguments.
    OpenLog { args: Vec<String>, floating: bool },
    /// Close the browser.
    Close,
}

/// Whether the screen needs drawing, and the action asked for.
#[derive(Clone, Debug)]
pub struct Outcome {
    pub render: bool,
    pub action: Option<Action>,
}

pub enum ActionModel {
    Run(CommandModel),
    OpenLog { args: Seq<Seq<char>>, floating: bool },
    Close,
}

pub struct OutcomeModel {
    pub render: bool,
    pub action: Option<ActionModel>,
}

impl View for Action {
    type V = ActionModel;

    open spec fn view(&self) -> ActionModel {
        match self {
            Action::Run(c) => ActionModel::Run(c@),
            Action::OpenLog { args, floating } => ActionModel::OpenLog {
                args: string_views(args@),
                floating: *floating,
            },
            Action::Close => ActionModel::Close,
        }
    }
}

impl View for Outcome {
    type V = OutcomeModel;

    open spec fn view(&self) -> OutcomeModel {
        OutcomeModel {
            render: self.render,
            action: match self.action {
                Some(a) => Some(a@),
                None => None,
            },
        }
    }
}

pub open spec fn shown(action: Option<ActionModel>) -> OutcomeModel {
    OutcomeModel { render: true, action }
}

pub open spec fn ignored() -> OutcomeModel {
    OutcomeModel { render: false, action: None }
}

pub open spec fn run(args: Seq<Seq<char>>, tag: CommandTag) -> Option<ActionModel> {
    Some(ActionModel::Run(CommandModel { args, tag }))
}

/// The browser's state: its configuration, the tab shown, the two tabs, and
/// the error on screen, if any.
pub struct Git {
    pub open_log_in_floating: bool,
    pub log_args: Vec<String>,
    pub branch_type: BranchType,
    pub local_branches_tab: Tab<LocalBranch>,
    pub remote_branches_tab: Tab<RemoteBranch>,
    pub error_message: Option<String>,
}

/// The arguments of `git log` for a branch: the configured ones, then the
/// branch name.
pub open spec fn log_args_for(log_args: Seq<Seq<char>>, name: Seq<char>) -> Seq<Seq<char>> {
    seq!["log"@] + log_args + seq![name]
}

impl Git {
    pub open spec fn wf(&self) -> bool {
        self.local_branches_tab.wf() && self.remote_branches_tab.wf()
    }

    /// `n` is `self` with only the error message replaced by `text`.
    pub open spec fn refused(self, n: Git, text: Seq<char>) -> bool {
        &&& n.error_message matches Some(m) && m@ == text
        &&& n.open_log_in_floating == self.open_log_in_floating
        &&& n.log_args == self.log_args
        &&& n.branch_type == self.branch_type
        &&& n.local_branches_tab == self.local_branches_tab
        &&& n.remote_branches_tab == self.remote_branches_tab
    }

    /// `n` is `self` with only the local tab replaced by `t`.
    pub open spec fn with_local(self, n: Git, t: Tab<LocalBranch>) -> bool {
        n == Git { local_branches_tab: t, ..self }
    }

    /// `n` is `self` with only the remote tab replaced by `t`.
    pub open spec fn with_remote(self, n: Git, t: Tab<RemoteBranch>) -> bool {
        n == Git { remote_branches_tab: t, ..self }
    }

    pub open spec fn open_log_model(self, name: Seq<char>) -> Option<ActionModel> {
        Some(
            ActionModel::OpenLog {
                args: log_args_for(string_views(self.log_args@), name),
                floating: self.open_log_in_floating,
            },
        )
    }

    /// What a key does on the local tab.
    pub open spec fn local_key_step(self, n: Git, key: Key, r: OutcomeModel) -> bool {
        let tab = self.local_branches_tab;
        let sel = tab.active().spec_selected();
        let no_selection = self.refused(n, ActionError::NoSelection.text()) && r == shown(None);
        match key {
            Key::Tab => n == Git { branch_type: BranchType::Remote, ..self } && r == shown(None),
            Key::Down => stepped(tab, n.local_branches_tab, 1) && self.with_local(
                n,
                n.local_branches_tab,
            ) && r == shown(None),
            Key::Up => stepped(tab, n.local_branches_tab, -1) && self.with_local(
                n,
                n.local_branches_tab,
            ) && r == shown(None),
            Key::Enter => match sel {
                Some(b) => n == self && r == shown(
                    run(seq!["switch"@, b.name@], CommandTag::Switch),
                ),
                None => no_selection,
            },
            Key::Backspace => erased(tab, n.local_branches_tab) && self.with_local(
                n,
                n.local_branches_tab,
            ) && r == shown(None),
            Key::Char(c) => typed(tab, n.local_branches_tab, c) && self.with_local(
                n,
                n.local_branches_tab,
            ) && r == shown(None),
            Key::Ctrl(c) => if c == 'c' {
                n == self && r == shown(
                    run(seq!["checkout"@, "-b"@, tab.input@], CommandTag::Create),
                )
            } else if c == 'r' {
                n == self && r == shown(
                    run(seq!["branch"@, "-vv"@], CommandTag::ListLocalBranches),
                )
            } else if c == 'd' || c == 'x' {
                match sel {
                    Some(b) => n == self && r == shown(
                        run(
                            seq!["branch"@, delete_flag(c == 'x'), b.name@],
                            CommandTag::Delete,
                        ),
                    ),
                    None => no_selection,
                }
            } else if c == 'l' {
                match sel {
                    Some(b) => n == self && r == shown(self.open_log_model(b.name@)),
                    None => no_selection,
                }
            } else if c == 'p' {
                n == self && r == shown(run(seq!["switch"@, "-"@], CommandTag::Switch))
            } else if c == 'f' {
                match sel {
                    Some(b) => match fetch_args(b@) {
                        Ok(a) => n == self && r == shown(run(a, CommandTag::Fetch)),
                        Err(e) => self.refused(n, e.text()) && r == shown(None),
                    },
                    None => no_selection,
                }
            } else {
                typed(tab, n.local_branches_tab, c) && self.with_local(n, n.local_branches_tab)
                    && r == shown(None)
            },
            _ => n == self && r == ignored(),
        }
    }

    /// What a key does on the remote tab.
    pub open spec fn remote_key_step(self, n: Git, key: Key, r: OutcomeModel) -> bool {
        let tab = self.remote_branches_tab;
        let sel = tab.active().spec_selected();
        let no_selection = self.refused(n, ActionError::NoSelection.text()) && r == shown(None);
        match key {
            Key::Tab => n == Git { branch_type: BranchType::Local, ..self } && r == shown(None),
            Key::Down => stepped(tab, n.remote_branches_tab, 1) && self.with_remote(
                n,
                n.remote_branches_tab,
            ) && r == shown(None),
            Key::Up => stepped(tab, n.remote_branches_tab, -1) && self.with_remote(
                n,
                n.remote_branches_tab,
            ) && r == shown(None),
            Key::Enter => match sel {
                Some(b) => n == self && r == shown(
                    run(seq!["checkout"@, "--track"@, b.name@], CommandTag::TrackRemote),
                ),
                None => no_selection,
            },
            Key::Backspace => erased(tab, n.remote_branches_tab) && self.with_remote(
                n,
                n.remote_branches_tab,
            ) && r == shown(None),
            Key::Char(c) => typed(tab, n.remote_branches_tab, c) && self.with_remote(
                n,
                n.remote_branches_tab,
            ) && r == shown(None),
            Key::Ctrl(c) => if c == 'r' {
                n == self && r == shown(
                    run(seq!["branch"@, "-r"@, "-v"@], CommandTag::ListRemoteBranches),
                )
            } else if c == 'l' {
                match sel {
                    Some(b) => n == self && r == shown(self.open_log_model(b.name@)),
                    None => no_selection,
                }
            } else {
                typed(tab, n.remote_branches_tab, c) && self.with_remote(n, n.remote_branches_tab)
                    && r == shown(None)
            },
            _ => n == self && r == ignored(),
        }
    }
}

fn shown_with(action: Action) -> (r: Outcome)
    ensures
        r@ == shown(Some(action@)),
{
    Outcome { render: true, action: Some(action) }
}

fn shown_none() -> (r: Outcome)
    ensures
        r@ == shown(None),
{
    Outcome { render: true, action: None }
}

impl Git {
    pub fn new(open_log_in_floating: bool, log_args: Vec<String>) -> (r: Git)
        ensures
            r.wf(),
            r.open_log_in_floating == open_log_in_floating,
            r.log_args == log_args,
            r.branch_type == BranchType::Local,
            r.error_message is None,
            !r.local_branches_tab.inited && r.local_branches_tab.input@.len() == 0,
            r.local_branches_tab.view.branches@.len() == 0,
            !r.remote_branches_tab.inited && r.remote_branches_tab.input@.len() == 0,
            r.remote_branches_tab.view.branches@.len() == 0,
    {
        Git {
            open_log_in_floating,
            log_args,
            branch_type: BranchType::Local,
            local_branches_tab: Tab::default(),
            remote_branches_tab: Tab::default(),
            error_message: None,
        }
    }

    /// A pane that shows the log of `branch_name`.
    pub fn open_log_pane(&self, branch_name: &str) -> (r: Action)
        ensures
            Some(r@) == self.open_log_model(branch_name@),
    {
        let mut args: Vec<String> = Vec::new();
        args.push(String::from_str("log"));
        let mut i: usize = 0;
        while i < self.log_args.len()
            invariant
                i <= self.log_args@.len(),
                string_views(args@) == seq!["log"@] + string_views(self.log_args@).take(i as int),
            decreases self.log_args@.len() - i,
        {
            let ghost prev = args@;
            args.push(self.log_args[i].clone());
            assert(string_views(args@) =~= string_views(prev).push(self.log_args@[i as int]@));
            assert(string_views(self.log_args@).take(i + 1) =~= string_views(self.log_args@).take(
                i as int,
            ).push(self.log_args@[i as int]@));
            i = i + 1;
        }
        let ghost prev = args@;
        args.push(String::from_str(branch_name));
        assert(string_views(self.log_args@).take(i as int) =~= string_views(self.log_args@));
        assert(string_views(args@) =~= string_views(prev).push(branch_name@));
        assert(string_views(args@) =~= log_args_for(string_views(self.log_args@), branch_name@));
        Action::OpenLog { args, floating: self.open_log_in_floating }
    }

    fn refuse(&mut self, e: ActionError) -> (r: Outcome)
        ensures
            old(self).refused(*final(self), e.text()),
            r@ == shown(None),
    {
        self.error_message = Some(e.message());
        shown_none()
    }

    pub fn handle_local_tab_key_input(&mut self, key: Key) -> (r: Outcome)
        requires
            old(self).wf(),
        ensures
            final(self).wf(),
            old(self).local_key_step(*final(self), key, r@),
    {
        match key {
            Key::Tab => {
                self.branch_type = BranchType::Remote;
                shown_none()
            },
            Key::Down => {
                self.local_branches_tab.select_down();
                shown_none()
            },
            Key::Up => {
                self.local_branches_tab.select_up();
                shown_none()
            },
            Key::Enter => match self.local_branches_tab.current_view().selected_branch() {
                Some(branch) => shown_with(Action::Run(switch_to_branch(branch))),
                None => self.refuse(ActionError::NoSelection),
            },
            Key::Ctrl('c') => shown_with(Action::Run(self.local_branches_tab.create_branch())),
            Key::Ctrl('r') => shown_with(Action::Run(list_local_branches())),
            Key::Ctrl('d') => match self.local_branches_tab.current_view().selected_branch() {
                Some(branch) => shown_with(
                    Action::Run(delete_branch(branch.name.as_str(), false)),
                ),
                None => self.refuse(ActionError::NoSelection),
            },
            Key::Ctrl('x') => match self.local_branches_tab.current_view().selected_branch() {
                Some(branch) => shown_with(Action::Run(delete_branch(branch.name.as_str(), true))),
                None => self.refuse(ActionError::NoSelection),
            },
            Key::Ctrl('l') => match self.local_branches_tab.current_view().selected_branch() {
                Some(branch) => shown_with(self.open_log_pane(branch.name.as_str())),
                None => self.refuse(ActionError::NoSelection),
            },
            Key::Ctrl('p') => shown_with(Action::Run(switch_to_previous_branch())),
            Key::Ctrl('f') => match self.local_branches_tab.current_view().selected_branch() {
                Some(branch) => match fetch(branch) {
                    Ok(command) => shown_with(Action::Run(command)),
                    Err(e) => self.refuse(e),
                },
                None => self.refuse(ActionError::NoSelection),
            },
            Key::Char(c) | Key::Ctrl(c) => {
                self.local_branches_tab.push_to_input(c);
                shown_none()
            },
            Key::Backspace => {
                self.local_branches_tab.pop_from_input();
                shown_none()
            },
            _ => Outcome { render: false, action: None },
        }
    }

    pub fn handle_remote_tab_key_input(&mut self, key: Key) -> (r: Outcome)
        requires
            old(self).wf(),
        ensures
            final(self).wf(),
            old(self).remote_key_step(*final(self), key, r@),
    {
        match key {
            Key::Tab => {
                self.branch_type = BranchType::Local;
                shown_none()
            },
            Key::Down => {
                self.remote_branches_tab.select_down();
                shown_none()
            },
            Key::Up => {
                self.remote_branches_tab.select_up();
                shown_none()
            },
            Key::Enter => match self.remote_branches_tab.current_view().selected_branch() {
                Some(branch) => shown_with(Action::Run(track_remote_branch(branch))),
                None => self.refuse(ActionError::NoSelection),
            },
            Key::Ctrl('r') => shown_with(Action::Run(list_remote_branches())),
            Key::Ctrl('l') => match self.remote_branches_tab.current_view().selected_branch() {
                Some(branch) => shown_with(self.open_log_pane(branch.name.as_str())),
                None => self.refuse(ActionError::NoSelection),
            },
            Key::Char(c) | Key::Ctrl(c) => {
                self.remote_branches_tab.push_to_input(c);
                shown_none()
            },
            Key::Backspace => {
                self.remote_branches_tab.pop_from_input();
                shown_none()
            },
            _ => Outcome { render: false, action: None },
        }
    }
}

impl Git {
    /// `n` is `self` with the error dismissed.
    pub open spec fn dismissed(self, n: Git) -> bool {
        n == Git { error_message: None, ..self }
    }

    /// What a key does: while an error is shown it only dismisses it; Esc
    /// closes the browser; any other key goes to the tab shown.
    pub open spec fn key_step(self, n: Git, key: Key, r: OutcomeModel) -> bool {
        if self.error_message is Some {
            self.dismissed(n) && r == shown(None)
        } else if key == Key::Esc {
            n == self && r == shown(Some(ActionModel::Close))
        } else {
            match self.branch_type {
                BranchType::Local => self.local_key_step(n, key, r),
                BranchType::Remote => self.remote_key_step(n, key, r),
            }
        }
    }

    /// What the successful result of a command tagged `tag`, with the lines
    /// of its output, does.
    pub open spec fn success_step(self, n: Git, tag: CommandTag, lines: Seq<Seq<char>>, r: OutcomeModel) -> bool {
        let relist = run(seq!["branch"@, "-vv"@], CommandTag::ListLocalBranches);
        match tag {
            CommandTag::ListLocalBranches => r == shown(None) && match parse_local_listing(lines) {
                Ok(bs) => local_views(n.local_branches_tab.view.branches@) == bs && refreshed(
                    self.local_branches_tab,
                    n.local_branches_tab,
                    n.local_branches_tab.view.branches@,
                ) && n
                    == Git { local_branches_tab: n.local_branches_tab, error_message: None, ..self },
                Err(e) => self.refused(n, e.text()),
            },
            CommandTag::ListRemoteBranches => r == shown(None) && match parse_remote_listing(lines) {
                Ok(bs) => remote_views(n.remote_branches_tab.view.branches@) == bs && refreshed(
                    self.remote_branches_tab,
                    n.remote_branches_tab,
                    n.remote_branches_tab.view.branches@,
                ) && n
                    == Git { remote_branches_tab: n.remote_branches_tab, error_message: None, ..self },
                Err(e) => self.refused(n, e.text()),
            },
            CommandTag::TrackRemote => n == Git { branch_type: BranchType::Local, ..self } && r
                == shown(relist),
            _ => n == self && r == shown(relist),
        }
    }

    /// What a command's result does: a missing or non-zero exit status shows
    /// the error output; a success is dispatched on its tag; one without a tag
    /// is ignored.
    pub open spec fn result_step(
        self,
        n: Git,
        exit_code: Option<i32>,
        tag: Option<CommandTag>,
        lines: Seq<Seq<char>>,
        stderr: Seq<char>,
        r: OutcomeModel,
    ) -> bool {
        if exit_code != Some(0i32) {
            self.refused(n, stderr) && r == shown(None)
        } else {
            match tag {
                Some(t) => self.success_step(n, t, lines, r),
                None => n == self && r == ignored(),
            }
        }
    }

    /// The first time a tab is shown it is marked and its listing asked for.
    pub open spec fn render_step(self, n: Git, r: Option<CommandModel>) -> bool {
        match self.branch_type {
            BranchType::Local => if self.local_branches_tab.inited {
                n == self && r is None
            } else {
                n == Git { local_branches_tab: Tab { inited: true, ..self.local_branches_tab }, ..self }
                    && r == Some(CommandModel { args: seq!["branch"@, "-vv"@], tag: CommandTag::ListLocalBranches })
            },
            BranchType::Remote => if self.remote_branches_tab.inited {
                n == self && r is None
            } else {
                n == Git { remote_branches_tab: Tab { inited: true, ..self.remote_branches_tab }, ..self }
                    && r == Some(CommandModel { args: seq!["branch"@, "-r"@, "-v"@], tag: CommandTag::ListRemoteBranches })
            },
        }
    }
}

pub open spec fn command_view(c: Option<GitCommand>) -> Option<CommandModel> {
    match c {
        Some(c) => Some(c@),
        None => None,
    }
}

impl Git {
    /// Handles a key: a key press while an error is shown only dismisses it;
    /// Esc closes the browser; any other key goes to the tab shown.
    pub fn handle_key_input(&mut self, key: Key) -> (r: Outcome)
        requires
            old(self).wf(),
        ensures
            final(self).wf(),
            old(self).key_step(*final(self), key, r@),
    {
        if self.error_message.is_some() {
            self.error_message = None;
            return shown_none();
        }
        if let Key::Esc = key {
            return shown_with(Action::Close);
        }
        match self.branch_type {
            BranchType::Local => self.handle_local_tab_key_input(key),
            BranchType::Remote => self.handle_remote_tab_key_input(key),
        }
    }

    /// Applies the result of a command that succeeded. A listing replaces the
    /// tab's records only if every line parses; otherwise its first error is
    /// shown and both tabs stay as they were. A command that changes branches
    /// asks for the local listing again.
    pub fn successful_command_update(&mut self, tag: CommandTag, stdout_lines: &Vec<String>) -> (r: Outcome)
        requires
            old(self).wf(),
        ensures
            final(self).wf(),
            old(self).success_step(*final(self), tag, line_views(stdout_lines@), r@),
    {
        match tag {
            CommandTag::ListLocalBranches => {
                match parse_local_branches(stdout_lines) {
                    Ok(branches) => {
                        self.local_branches_tab.refresh(branches);
                        self.error_message = None;
                    },
                    Err(e) => {
                        self.error_message = Some(e.message());
                    },
                }
                shown_none()
            },
            CommandTag::ListRemoteBranches => {
                match parse_remote_branches(stdout_lines) {
                    Ok(branches) => {
                        self.remote_branches_tab.refresh(branches);
                        self.error_message = None;
                    },
                    Err(e) => {
                        self.error_message = Some(e.message());
                    },
                }
                shown_none()
            },
            CommandTag::Switch | CommandTag::Create | CommandTag::Delete | CommandTag::Fetch => {
                shown_with(Action::Run(list_local_branches()))
            },
            CommandTag::TrackRemote => {
                self.branch_type = BranchType::Local;
                shown_with(Action::Run(list_local_branches()))
            },
        }
    }

    /// Applies the result of a command: a missing or non-zero exit status
    /// shows the command's error output; a success is dispatched on its tag,
    /// and one without a tag is ignored.
    pub fn handle_command_result(
        &mut self,
        exit_code: Option<i32>,
        tag: Option<CommandTag>,
        stdout_lines: &Vec<String>,
        stderr: String,
    ) -> (r: Outcome)
        requires
            old(self).wf(),
        ensures
            final(self).wf(),
            old(self).result_step(*final(self), exit_code, tag, line_views(stdout_lines@), stderr@, r@),
    {
        match exit_code {
            Some(0) => match tag {
                Some(t) => self.successful_command_update(t, stdout_lines),
                None => Outcome { render: false, action: None },
            },
            _ => {
                self.error_message = Some(stderr);
                shown_none()
            },
        }
    }

    /// The first time a tab is shown, its listing is asked for.
    pub fn begin_render(&mut self) -> (r: Option<GitCommand>)
        requires
            old(self).wf(),
        ensures
            final(self).wf(),
            old(self).render_step(*final(self), command_view(r)),
    {
        match self.branch_type {
            BranchType::Local => {
                if self.local_branches_tab.inited {
                    None
                } else {
                    self.local_branches_tab.inited = true;
                    Some(list_local_branches())
                }
            },
            BranchType::Remote => {
                if self.remote_branches_tab.inited {
                    None
                } else {
                    self.remote_branches_tab.inited = true;
                    Some(list_remote_branches())
                }
            },
        }
    }
}

/// A local listing rendered from valid records with one line corrupted
/// leaves both tabs, their records and their selections as they were, and
/// shows that line's error.
pub proof fn lemma_corrupt_listing_keeps_state(
    g: Git,
    n: Git,
    rs: Seq<crate::branch::LocalModel>,
    k: int,
    bad: Seq<char>,
    r: OutcomeModel,
)
    requires
        forall|i: int| 0 <= i < rs.len() ==> crate::format::valid_local(#[trigger] rs[i]),
        0 <= k < rs.len(),
        crate::branch::parse_local(bad) is Err,
        g.success_step(
            n,
            CommandTag::ListLocalBranches,
            rs.map_values(|b: crate::branch::LocalModel| crate::format::render_local(b)).update(k, bad),
            r,
        ),
    ensures
        n.local_branches_tab == g.local_branches_tab,
        n.remote_branches_tab == g.remote_branches_tab,
        n.branch_type == g.branch_type,
        n.error_message matches Some(m) && m@ == crate::branch::parse_local(bad)->Err_0.text(),
{
    crate::listing::lemma_local_batch_atomicity(rs, k, bad);
}

} // verus!
