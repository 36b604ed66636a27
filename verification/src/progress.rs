//! The progress aggregator: how many repositories are done, how many failed,
//! and how far each running transfer has come.
//!
//! It is plain bookkeeping. Drawing it is left to the caller, which reads the
//! counters, the transfers and the messages whenever it likes.

use crate::text::{decimal, push_decimal};
use vstd::hash_map::StringHashMap;
use vstd::prelude::*;

verus! {

/// How far one transfer has come: units done, out of the number of units
/// that was known when the transfer was first reported.
#[derive(Clone, Copy, Debug, PartialEq, Eq, Structural)]
pub struct TransferProgress {
    pub current: u32,
    pub total: u32,
}

/// The transfers in flight after a report of `current` out of `total` units
/// for `name`.
///
/// A transfer that has all its units is no longer in flight. Otherwise the
/// units done are recorded; the total of a transfer that is already in
/// flight stays as it was first reported.
pub open spec fn report(
    in_flight: Map<Seq<char>, TransferProgress>,
    name: Seq<char>,
    current: u32,
    total: u32,
) -> Map<Seq<char>, TransferProgress> {
    if current >= total {
        in_flight.remove(name)
    } else if in_flight.contains_key(name) {
        in_flight.insert(name, TransferProgress { current, total: in_flight[name].total })
    } else {
        in_flight.insert(name, TransferProgress { current, total })
    }
}

/// The message of the main progress line for the given counters.
pub open spec fn main_message_text(total: nat, completed: nat, failed: nat) -> Seq<char> {
    if completed == 0 && failed == 0 {
        "Starting export..."@
    } else if completed == total {
        "Export completed!"@
    } else if failed > 0 {
        "Completed: "@ + decimal(completed) + ", Failed: "@ + decimal(failed)
    } else {
        "Completed: "@ + decimal(completed)
    }
}

/// The closing message for the given counters.
pub open spec fn finish_text(completed: nat, failed: nat) -> Seq<char> {
    if failed > 0 {
        "Export finished with "@ + decimal(completed) + " successes and "@ + decimal(failed)
            + " failures"@
    } else {
        "Export completed successfully! "@ + decimal(completed) + " repositories downloaded"@
    }
}

/// Counters of one batch and the transfers that are in flight.
pub struct ProgressTracker {
    total_repos: usize,
    completed_repos: usize,
    failed_repos: usize,
    repo_bars: StringHashMap<TransferProgress>,
}

impl ProgressTracker {
    /// The number of repositories of the batch.
    pub closed spec fn total(&self) -> nat {
        self.total_repos as nat
    }

    /// The number of repositories that were synchronised.
    pub closed spec fn completed(&self) -> nat {
        self.completed_repos as nat
    }

    /// The number of repositories that failed.
    pub closed spec fn failed(&self) -> nat {
        self.failed_repos as nat
    }

    /// The transfers in flight, by repository name.
    pub closed spec fn in_flight(&self) -> Map<Seq<char>, TransferProgress> {
        self.repo_bars@
    }

    /// Completed and failed repositories together never exceed the total.
    pub open spec fn wf(&self) -> bool {
        self.completed() + self.failed() <= self.total()
    }

    /// Nothing is counted yet and nothing is in flight.
    pub open spec fn fresh(&self) -> bool {
        &&& self.completed() == 0
        &&& self.failed() == 0
        &&& self.in_flight() == Map::<Seq<char>, TransferProgress>::empty()
    }

    /// A tracker for a batch of `total_repos` repositories, with nothing done
    /// and nothing in flight.
    pub fn new(total_repos: usize) -> (tracker: ProgressTracker)
        ensures
            tracker.wf(),
            tracker.fresh(),
            tracker.total() == total_repos,
    {
        ProgressTracker {
            total_repos,
            completed_repos: 0,
            failed_repos: 0,
            repo_bars: StringHashMap::new(),
        }
    }

    /// Records that the transfer of `repo_name` has `current` of `total`
    /// units.
    pub fn update_repo_progress(&mut self, repo_name: &str, current: u32, total: u32)
        ensures
            final(self).total() == old(self).total(),
            final(self).completed() == old(self).completed(),
            final(self).failed() == old(self).failed(),
            final(self).in_flight() == report(old(self).in_flight(), repo_name@, current, total),
    {
        if current >= total {
            self.repo_bars.remove(repo_name);
        } else {
            let known_total: u32 = match self.repo_bars.get(repo_name) {
                Some(progress) => progress.total,
                None => total,
            };
            self.repo_bars.insert(
                String::from_str(repo_name),
                TransferProgress { current, total: known_total },
            );
        }
    }

    /// Takes the transfer of `repo_name` out of the transfers in flight.
    pub fn clear_repo_progress(&mut self, repo_name: &str)
        ensures
            final(self).total() == old(self).total(),
            final(self).completed() == old(self).completed(),
            final(self).failed() == old(self).failed(),
            final(self).in_flight() == old(self).in_flight().remove(repo_name@),
    {
        self.repo_bars.remove(repo_name);
    }

    /// How far the transfer of `repo_name` has come, if it is in flight.
    pub fn repo_progress(&self, repo_name: &str) -> (progress: Option<TransferProgress>)
        ensures
            match progress {
                Some(p) => self.in_flight().contains_key(repo_name@) && p
                    == self.in_flight()[repo_name@],
                None => !self.in_flight().contains_key(repo_name@),
            },
    {
        match self.repo_bars.get(repo_name) {
            Some(progress) => Some(*progress),
            None => None,
        }
    }

    /// Counts one more repository as synchronised.
    pub fn increment_completed(&mut self)
        requires
            old(self).completed() + old(self).failed() < old(self).total(),
        ensures
            final(self).wf(),
            final(self).total() == old(self).total(),
            final(self).completed() == old(self).completed() + 1,
            final(self).failed() == old(self).failed(),
            final(self).in_flight() == old(self).in_flight(),
    {
        self.completed_repos = self.completed_repos + 1;
    }

    /// Counts one more repository as failed.
    pub fn increment_failed(&mut self)
        requires
            old(self).completed() + old(self).failed() < old(self).total(),
        ensures
            final(self).wf(),
            final(self).total() == old(self).total(),
            final(self).completed() == old(self).completed(),
            final(self).failed() == old(self).failed() + 1,
            final(self).in_flight() == old(self).in_flight(),
    {
        self.failed_repos = self.failed_repos + 1;
    }

    /// Whether nothing is counted yet and nothing is in flight.
    pub fn is_fresh(&self) -> (yes: bool)
        ensures
            yes == self.fresh(),
    {
        let idle = self.repo_bars.is_empty();
        proof {
            if idle {
                assert(self.repo_bars@ =~= Map::<Seq<char>, TransferProgress>::empty());
            }
        }
        self.completed_repos == 0 && self.failed_repos == 0 && idle
    }

    /// Whether every repository of the batch was synchronised.
    pub fn is_complete(&self) -> (yes: bool)
        ensures
            yes == (self.completed() == self.total()),
    {
        self.completed_repos == self.total_repos
    }

    /// The message of the main progress line.
    pub fn main_message(&self) -> (message: String)
        ensures
            message@ == main_message_text(self.total(), self.completed(), self.failed()),
    {
        if self.completed_repos == 0 && self.failed_repos == 0 {
            String::from_str("Starting export...")
        } else if self.completed_repos == self.total_repos {
            String::from_str("Export completed!")
        } else {
            let mut message = String::from_str("Completed: ");
            push_decimal(&mut message, self.completed_repos as u64);
            if self.failed_repos > 0 {
                message.append(", Failed: ");
                push_decimal(&mut message, self.failed_repos as u64);
            }
            message
        }
    }

    /// The message that closes the batch.
    pub fn finish(&self) -> (message: String)
        ensures
            message@ == finish_text(self.completed(), self.failed()),
    {
        if self.failed_repos > 0 {
            let mut message = String::from_str("Export finished with ");
            push_decimal(&mut message, self.completed_repos as u64);
            message.append(" successes and ");
            push_decimal(&mut message, self.failed_repos as u64);
            message.append(" failures");
            message
        } else {
            let mut message = String::from_str("Export completed successfully! ");
            push_decimal(&mut message, self.completed_repos as u64);
            message.append(" repositories downloaded");
            message
        }
    }

    /// Total, completed and failed repositories.
    pub fn get_stats(&self) -> (stats: (usize, usize, usize))
        ensures
            stats.0 == self.total(),
            stats.1 == self.completed(),
            stats.2 == self.failed(),
    {
        (self.total_repos, self.completed_repos, self.failed_repos)
    }
}

} // verus!
