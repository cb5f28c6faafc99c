//! The driver loop's decision step. The loop around it lives outside the
//! library: it opens the filesystem watcher, blocks on the event channel,
//! reads the clock, runs the rendered command line, and reports errors. Each
//! received event is handed here, and the step decides — filter, debounce,
//! render — what, if anything, to dispatch.

use vstd::prelude::*;

use crate::command::join_with_spaces;
use crate::command::render_command;
use crate::command::substitute;
use crate::debounce::WatchState;
use crate::debounce::dispatch_allowed;
use crate::event::ChangeEvent;
use crate::event::paths_view;
use crate::pattern::CompiledPattern;
use crate::pattern::PatternError;
use crate::pattern::event_matches;
use crate::pattern::regex_compiles;

verus! {

/// One watch session: the immutable configuration (compiled pattern, command
/// template, debounce window) and the mutable dispatch memory.
pub struct WatchSession {
    pub pattern: CompiledPattern,
    pub command_template: String,
    pub window_millis: u64,
    pub state: WatchState,
}

/// What the command line of a dispatch for `paths` looks like: the template
/// with every placeholder replaced by the space-joined paths.
pub open spec fn rendered_line(template: Seq<char>, paths: Seq<Seq<char>>) -> Seq<char> {
    substitute(template, join_with_spaces(paths))
}

impl WatchSession {
    /// Open a session: compile `pattern` (an invalid pattern is a fatal
    /// configuration error, reported once at startup) and start the dispatch
    /// memory at `start_millis` with no paths remembered, so the first
    /// qualifying event always dispatches.
    pub fn new(pattern: &str, command_template: &str, window_millis: u64, start_millis: u64) -> (r:
        Result<WatchSession, PatternError>)
        ensures
            r is Ok <==> regex_compiles(pattern@),
            r is Ok ==> {
                let s = r->Ok_0;
                &&& s.pattern@ == pattern@
                &&& s.command_template@ == command_template@
                &&& s.window_millis == window_millis
                &&& s.state.last_millis == start_millis
                &&& paths_view(s.state.last_paths@) == Seq::<Seq<char>>::empty()
            },
    {
        match CompiledPattern::new(pattern) {
            Ok(compiled) => Ok(
                WatchSession {
                    pattern: compiled,
                    command_template: command_template.to_owned(),
                    window_millis,
                    state: WatchState::initial(start_millis),
                },
            ),
            Err(e) => Err(e),
        }
    }

    /// Process one received event at time `now_millis` (milliseconds on the
    /// driver's monotone clock, so never before the remembered time).
    ///
    /// Returns the command line to run now, or `None` when nothing is to be
    /// dispatched: the event does not qualify, or it repeats the previous
    /// path sequence within the debounce window. On every qualifying event —
    /// dispatched or suppressed — the dispatch memory is refreshed to this
    /// event's time and paths before the caller runs anything, so a slow
    /// command never leaves stale state behind. The configuration never
    /// changes.
    pub fn process_event(&mut self, now_millis: u64, event: &ChangeEvent) -> (r: Option<String>)
        requires
            now_millis >= old(self).state.last_millis,
        ensures
            final(self).pattern == old(self).pattern,
            final(self).command_template == old(self).command_template,
            final(self).window_millis == old(self).window_millis,
            ({
                let qualifies = event_matches(
                    event.kind,
                    paths_view(event.paths@),
                    old(self).pattern@,
                );
                let allowed = dispatch_allowed(
                    now_millis,
                    paths_view(event.paths@),
                    old(self).state.last_millis,
                    paths_view(old(self).state.last_paths@),
                    old(self).window_millis,
                );
                &&& (r is Some <==> qualifies && allowed)
                &&& (r is Some ==> r->0@ == rendered_line(
                    old(self).command_template@,
                    paths_view(event.paths@),
                ))
                &&& (qualifies ==> final(self).state.last_millis == now_millis && paths_view(
                    final(self).state.last_paths@,
                ) == paths_view(event.paths@))
                &&& (!qualifies ==> final(self).state == old(self).state)
            }),
    {
        if !self.pattern.matches(event) {
            return None;
        }
        let allowed = self.state.should_dispatch(now_millis, &event.paths, self.window_millis);
        self.state.record(now_millis, &event.paths);
        if allowed {
            Some(render_command(self.command_template.as_str(), &event.paths))
        } else {
            None
        }
    }
}

} // verus!
