//! The process supervisor's bookkeeping: which servers are running, under
//! which name, and which secrets their traffic must not show.

use vstd::prelude::*;
use tokio::sync::mpsc::Sender;
use vstd::string::StringExecFns;
use crate::error::{SupervisorError, SupervisorFault};
use crate::gate::{command_allowed, is_command_allowed};
use crate::keyed::{distinct_keys, has_key, index_of_key, lemma_map_empty, lemma_map_entry,
    lemma_map_push, lemma_map_remove, lemma_map_size, map_of};
use crate::outside::{new_message_id, now_rfc3339};
use crate::redactor::{all_marker_safe, free_of_secrets, redact_text, register_all, SecretSet};
use crate::text::{same_text, texts_of};

verus! {

/// One running server: its name, the two channels that reach its tasks, and
/// the process id that the operating system gave it.
#[derive(Debug)]
pub struct ActiveProcess {
    /// Server name identifier; the key under which the process is registered.
    pub server_name: String,
    /// Queue of payloads for the process's standard input.
    pub stdin_tx: Sender<String>,
    /// Channel on which termination is requested.
    pub kill_tx: Sender<()>,
    /// OS process id; informational.
    pub pid: u32,
    /// The handle that was issued when the spawn was admitted. It tells this
    /// process from every other one, also from one that later runs under the
    /// same name or gets the same process id.
    pub handle: u64,
}

/// How many payloads may wait in the input queue of a process; a sender
/// waits while the queue is full.
pub const INPUT_QUEUE_CAPACITY: usize = 100;

/// How many stop requests may wait in the stop channel of a process.
pub const STOP_CHANNEL_CAPACITY: usize = 1;

/// The topic under which traffic events are emitted.
pub const TRAFFIC_TOPIC: &'static str = "mcp-traffic";

/// The topic under which the stop of a process is announced.
pub const STOPPED_TOPIC: &'static str = "process-stopped";

/// Which way an observed line travelled.
#[derive(Debug, Clone, Copy, PartialEq, Eq, Structural)]
pub enum TrafficDirection {
    /// Sent to the process's standard input.
    Outgoing,
    /// Read from the process's standard output.
    Incoming,
    /// Read from the process's standard error.
    Stderr,
}

impl TrafficDirection {
    /// The direction as it is written in an event.
    pub open spec fn label_text(self) -> Seq<char> {
        match self {
            TrafficDirection::Outgoing => "OUTGOING"@,
            TrafficDirection::Incoming => "INCOMING"@,
            TrafficDirection::Stderr => "STDERR"@,
        }
    }

    /// The direction as it is written in an event.
    pub fn label(self) -> (text: &'static str)
        ensures
            text@ == self.label_text(),
    {
        match self {
            TrafficDirection::Outgoing => "OUTGOING",
            TrafficDirection::Incoming => "INCOMING",
            TrafficDirection::Stderr => "STDERR",
        }
    }
}

/// One observed line of traffic, as it is handed to the observer.
#[derive(Debug, Clone)]
pub struct McpTrafficEvent {
    /// Name of the server whose traffic this is.
    pub server_id: String,
    /// Time of observation, as RFC 3339 text.
    pub timestamp: String,
    /// `OUTGOING`, `INCOMING` or `STDERR`.
    pub direction: String,
    /// The line, as far as the observer may see it.
    pub content: String,
    /// Unique id of the event.
    pub message_id: String,
}

impl McpTrafficEvent {
    /// The event with the given time and id.
    pub fn new(
        server_id: &str,
        timestamp: String,
        direction: TrafficDirection,
        content: String,
        message_id: String,
    ) -> (event: Self)
        ensures
            event.server_id@ == server_id@,
            event.timestamp == timestamp,
            event.direction@ == direction.label_text(),
            event.content == content,
            event.message_id == message_id,
    {
        McpTrafficEvent {
            server_id: server_id.to_owned(),
            timestamp,
            direction: String::from_str(direction.label()),
            content,
            message_id,
        }
    }

    /// The event reports `content` as traffic of `server` in `direction`,
    /// with a time stamp of at least 25 characters and under an id of 36
    /// characters.
    pub open spec fn reports(
        self,
        server: Seq<char>,
        direction: TrafficDirection,
        content: Seq<char>,
    ) -> bool {
        &&& self.server_id@ == server
        &&& self.direction@ == direction.label_text()
        &&& self.content@ == content
        &&& self.timestamp@.len() >= 25
        &&& self.message_id@.len() == 36
    }

    /// An event for a line observed now, under a fresh id.
    pub fn observed(server_id: &str, direction: TrafficDirection, content: String) -> (event: Self)
        ensures
            event.reports(server_id@, direction, content@),
    {
        McpTrafficEvent::new(server_id, now_rfc3339(), direction, content, new_message_id())
    }
}

/// The records of a list, each under its name.
pub open spec fn named(records: Seq<ActiveProcess>) -> Seq<(Seq<char>, ActiveProcess)> {
    Seq::new(records.len(), |i: int| (records[i].server_name@, records[i]))
}

/// No two records bear the same name.
pub open spec fn distinct_names(records: Seq<ActiveProcess>) -> bool {
    distinct_keys(named(records))
}

/// The records as a map from name to record.
pub open spec fn registry_of(records: Seq<ActiveProcess>) -> Map<Seq<char>, ActiveProcess> {
    map_of(named(records))
}

/// No two records bear the same handle.
pub open spec fn distinct_handles(records: Seq<ActiveProcess>) -> bool {
    forall|i: int, j: int|
        0 <= i < records.len() && 0 <= j < records.len() && i != j ==> records[i].handle
            != records[j].handle
}

/// No two entries of the registry bear the same handle.
pub open spec fn handles_differ(processes: Map<Seq<char>, ActiveProcess>) -> bool {
    forall|a: Seq<char>, b: Seq<char>|
        processes.dom().contains(a) && processes.dom().contains(b) && a != b ==> processes[a].handle
            != processes[b].handle
}

/// Some entry of the registry bears `handle`.
pub open spec fn handle_registered(processes: Map<Seq<char>, ActiveProcess>, handle: u64) -> bool {
    exists|name: Seq<char>| processes.dom().contains(name) && (#[trigger] processes[name]).handle == handle
}

/// A name under which `handle` is registered.
pub open spec fn name_of_handle(processes: Map<Seq<char>, ActiveProcess>, handle: u64) -> Seq<char> {
    choose|name: Seq<char>| processes.dom().contains(name) && (#[trigger] processes[name]).handle == handle
}

/// The registry without the entry that bears `handle`, if there is one.
pub open spec fn without_handle(processes: Map<Seq<char>, ActiveProcess>, handle: u64) -> Map<
    Seq<char>,
    ActiveProcess,
> {
    if handle_registered(processes, handle) {
        processes.remove(name_of_handle(processes, handle))
    } else {
        processes
    }
}

/// The registry after `process` was registered: it stands under its name,
/// and no other entry bears its handle.
pub open spec fn after_insert(processes: Map<Seq<char>, ActiveProcess>, process: ActiveProcess) -> Map<
    Seq<char>,
    ActiveProcess,
> {
    without_handle(processes, process.handle).insert(process.server_name@, process)
}

/// The registry after the process that ran under `server_name` with `handle`
/// was cleared up: its entry is gone if it still stood there, and an entry
/// that another process holds under the name is left alone.
pub open spec fn after_exit(
    processes: Map<Seq<char>, ActiveProcess>,
    server_name: Seq<char>,
    handle: u64,
) -> Map<Seq<char>, ActiveProcess> {
    if processes.dom().contains(server_name) && processes[server_name].handle == handle {
        processes.remove(server_name)
    } else {
        processes
    }
}

/// What leaves the registry when `process` is registered: first the entry
/// that stood under its name, then the entry under another name that bore its
/// handle.
pub open spec fn displaced_by(processes: Map<Seq<char>, ActiveProcess>, process: ActiveProcess) -> Seq<
    ActiveProcess,
> {
    let name = process.server_name@;
    let by_name = if processes.dom().contains(name) {
        seq![processes[name]]
    } else {
        Seq::empty()
    };
    let by_handle = if handle_registered(processes, process.handle) && name_of_handle(
        processes,
        process.handle,
    ) != name {
        seq![processes[name_of_handle(processes, process.handle)]]
    } else {
        Seq::empty()
    };
    by_name + by_handle
}

/// No record bears `handle`.
pub open spec fn handle_free(records: Seq<ActiveProcess>, handle: u64) -> bool {
    forall|k: int| 0 <= k < records.len() ==> (#[trigger] records[k]).handle != handle
}

/// Taking a record away keeps the handles distinct, and leaves no record
/// with `handle` where the record taken away was the only one that could
/// bear it.
proof fn lemma_distinct_handles_remove(records: Seq<ActiveProcess>, at: int, handle: u64)
    requires
        distinct_handles(records),
        0 <= at < records.len(),
        handle_free(records, handle) || records[at].handle == handle,
    ensures
        distinct_handles(records.remove(at)),
        handle_free(records.remove(at), handle),
{
    let fewer = records.remove(at);
    assert forall|i: int, j: int|
        0 <= i < fewer.len() && 0 <= j < fewer.len() && i != j implies fewer[i].handle
        != fewer[j].handle by {
        let a = if i < at { i } else { i + 1 };
        let b = if j < at { j } else { j + 1 };
        assert(fewer[i] == records[a] && fewer[j] == records[b]);
    }
    assert forall|k: int| 0 <= k < fewer.len() implies (#[trigger] fewer[k]).handle != handle by {
        let a = if k < at { k } else { k + 1 };
        assert(fewer[k] == records[a]);
    }
}

/// Appending a record whose handle no record bears keeps the handles
/// distinct.
proof fn lemma_distinct_handles_push(records: Seq<ActiveProcess>, record: ActiveProcess)
    requires
        distinct_handles(records),
        handle_free(records, record.handle),
    ensures
        distinct_handles(records.push(record)),
{
    let grown = records.push(record);
    assert forall|a: int, b: int|
        0 <= a < grown.len() && 0 <= b < grown.len() && a != b implies grown[a].handle
        != grown[b].handle by {
        if a < records.len() {
            assert(grown[a] == records[a]);
        }
        if b < records.len() {
            assert(grown[b] == records[b]);
        }
    }
}

/// Index of the record named `server_name` in `records`, if there is one.
fn position_in(records: &Vec<ActiveProcess>, server_name: &str) -> (found: Option<usize>)
    ensures
        match found {
            Some(i) => i < records@.len() && records@[i as int].server_name@ == server_name@,
            None => !has_key(named(records@), server_name@),
        },
{
    let mut i: usize = 0;
    while i < records.len()
        invariant
            i <= records@.len(),
            forall|k: int| 0 <= k < i ==> records@[k].server_name@ != server_name@,
        decreases records@.len() - i,
    {
        if same_text(records[i].server_name.as_str(), server_name) {
            return Some(i);
        }
        i += 1;
    }
    assert forall|k: int| 0 <= k < records@.len() implies (#[trigger] named(records@)[k]).0
        != server_name@ by {}
    None
}

/// With distinct handles in the list, the registry's handles differ.
proof fn lemma_handles_differ(records: Seq<ActiveProcess>)
    requires
        distinct_names(records),
        distinct_handles(records),
    ensures
        handles_differ(registry_of(records)),
{
    let processes = registry_of(records);
    assert forall|a: Seq<char>, b: Seq<char>|
        processes.dom().contains(a) && processes.dom().contains(b) && a != b implies processes[a].handle
        != processes[b].handle by {
        let i = index_of_key(named(records), a);
        let j = index_of_key(named(records), b);
        lemma_registry_entry(records, i);
        lemma_registry_entry(records, j);
    }
}

/// The record at index `i` is the one entry of the registry that bears its
/// handle.
proof fn lemma_handle_found(records: Seq<ActiveProcess>, i: int)
    requires
        distinct_names(records),
        distinct_handles(records),
        0 <= i < records.len(),
    ensures
        handle_registered(registry_of(records), records[i].handle),
        name_of_handle(registry_of(records), records[i].handle) == records[i].server_name@,
{
    let processes = registry_of(records);
    let handle = records[i].handle;
    lemma_registry_entry(records, i);
    assert(processes.dom().contains(records[i].server_name@) && processes[records[i].server_name@].handle
        == handle);
    let name = name_of_handle(processes, handle);
    let j = index_of_key(named(records), name);
    lemma_registry_entry(records, j);
}

/// A handle that no record bears is not registered.
proof fn lemma_handle_absent(records: Seq<ActiveProcess>, handle: u64)
    requires
        distinct_names(records),
        handle_free(records, handle),
    ensures
        !handle_registered(registry_of(records), handle),
{
    let processes = registry_of(records);
    if handle_registered(processes, handle) {
        let name = name_of_handle(processes, handle);
        let j = index_of_key(named(records), name);
        lemma_registry_entry(records, j);
    }
}

/// With distinct names, each record is the one that the registry holds under
/// its name.
proof fn lemma_registry_entry(records: Seq<ActiveProcess>, i: int)
    requires
        distinct_names(records),
        0 <= i < records.len(),
    ensures
        registry_of(records).dom().contains(records[i].server_name@),
        registry_of(records)[records[i].server_name@] == records[i],
{
    lemma_map_entry(named(records), i);
}

/// Appending a record under a new name inserts it into the registry.
proof fn lemma_registry_push(records: Seq<ActiveProcess>, record: ActiveProcess)
    requires
        distinct_names(records),
        !has_key(named(records), record.server_name@),
    ensures
        distinct_names(records.push(record)),
        registry_of(records.push(record)) == registry_of(records).insert(
            record.server_name@,
            record,
        ),
{
    lemma_map_push(named(records), record.server_name@, record);
    assert(named(records.push(record)) =~= named(records).push((record.server_name@, record)));
}

/// Taking the record at index `at` away removes its name from the registry
/// and leaves every other entry as it was.
proof fn lemma_registry_remove(records: Seq<ActiveProcess>, at: int)
    requires
        distinct_names(records),
        0 <= at < records.len(),
    ensures
        distinct_names(records.remove(at)),
        registry_of(records.remove(at)) == registry_of(records).remove(records[at].server_name@),
{
    lemma_map_remove(named(records), at);
    assert(named(records.remove(at)) =~= named(records).remove(at));
}

/// The registry of running servers together with the secrets that their
/// traffic must not show. At most one process is registered under a name.
pub struct ProcessManager {
    processes: Vec<ActiveProcess>,
    secrets: SecretSet,
    next_handle: u64,
}

impl ProcessManager {
    #[verifier::type_invariant]
    spec fn well_formed(self) -> bool {
        distinct_names(self.processes@) && distinct_handles(self.processes@)
    }

    /// The registry: each running server's record under the server's name.
    pub closed spec fn processes(&self) -> Map<Seq<char>, ActiveProcess> {
        registry_of(self.processes@)
    }

    /// The registered secrets, in the order of their registration.
    pub closed spec fn secrets(&self) -> Seq<Seq<char>> {
        self.secrets@
    }

    /// How many handles were issued so far; the next spawn that is admitted
    /// gets this number as its handle.
    pub closed spec fn issued(&self) -> u64 {
        self.next_handle
    }

    /// Whether a server is registered under `name`.
    pub open spec fn running(&self, name: Seq<char>) -> bool {
        self.processes().dom().contains(name)
    }

    /// A supervisor with no process and no secret.
    pub fn new() -> (manager: Self)
        ensures
            manager.processes() == Map::<Seq<char>, ActiveProcess>::empty(),
            manager.secrets() == Seq::<Seq<char>>::empty(),
            manager.issued() == 0,
    {
        let manager = ProcessManager {
            processes: Vec::new(),
            secrets: SecretSet::new(),
            next_handle: 0,
        };
        proof {
            lemma_map_empty(named(manager.processes@));
        }
        manager
    }

    /// Index of the record named `server_name`, if there is one.
    fn position(&self, server_name: &str) -> (found: Option<usize>)
        ensures
            match found {
                Some(i) => i < self.processes@.len() && self.processes@[i as int].server_name@
                    == server_name@,
                None => !has_key(named(self.processes@), server_name@),
            },
    {
        position_in(&self.processes, server_name)
    }

    /// Takes the records out, leaving none behind.
    fn take_records(&mut self) -> (records: Vec<ActiveProcess>)
        ensures
            records@ == old(self).processes@,
            distinct_names(records@),
            distinct_handles(records@),
            final(self).processes@.len() == 0,
            final(self).secrets == old(self).secrets,
            final(self).next_handle == old(self).next_handle,
    {
        proof {
            use_type_invariant(&*self);
        }
        let mut records: Vec<ActiveProcess> = Vec::new();
        proof {
            lemma_map_empty(named(records@));
        }
        core::mem::swap(&mut self.processes, &mut records);
        records
    }

    /// Puts `records` in the place of the records held now.
    fn put_records(&mut self, records: Vec<ActiveProcess>)
        requires
            distinct_names(records@),
            distinct_handles(records@),
        ensures
            final(self).processes@ == records@,
            final(self).secrets == old(self).secrets,
            final(self).next_handle == old(self).next_handle,
    {
        let mut records = records;
        core::mem::swap(&mut self.processes, &mut records);
    }

    /// Whether a process is registered under `server_name`.
    pub fn is_running(&self, server_name: &str) -> (running: bool)
        ensures
            running == self.running(server_name@),
    {
        let found = self.position(server_name);
        proof {
            if let Some(i) = found {
                assert(named(self.processes@)[i as int].0 == server_name@);
            }
        }
        found.is_some()
    }

    /// Index of the record that bears `handle`, if there is one.
    fn position_of_handle(records: &Vec<ActiveProcess>, handle: u64) -> (found: Option<usize>)
        ensures
            match found {
                Some(i) => i < records@.len() && records@[i as int].handle == handle,
                None => handle_free(records@, handle),
            },
    {
        let mut i: usize = 0;
        while i < records.len()
            invariant
                i <= records@.len(),
                forall|k: int| 0 <= k < i ==> records@[k].handle != handle,
            decreases records@.len() - i,
        {
            if records[i].handle == handle {
                return Some(i);
            }
            i += 1;
        }
        None
    }

    /// Registers `process` under its name. The record that stood under the
    /// name before, and a record under another name that bears the same
    /// handle, leave the registry and are handed back, in this order.
    pub fn insert_process(&mut self, process: ActiveProcess) -> (displaced: Vec<ActiveProcess>)
        ensures
            final(self).processes() == after_insert(old(self).processes(), process),
            handles_differ(final(self).processes()),
            final(self).secrets() == old(self).secrets(),
            final(self).issued() == old(self).issued(),
            displaced@ == displaced_by(old(self).processes(), process),
    {
        let mut records = self.take_records();
        let ghost before = records@;
        let ghost start = registry_of(before);
        let ghost name = process.server_name@;
        let ghost handle = process.handle;
        let mut displaced: Vec<ActiveProcess> = Vec::new();
        match ProcessManager::position_of_handle(&records, process.handle) {
            Some(i) => {
                proof {
                    lemma_handle_found(before, i as int);
                    lemma_registry_entry(before, i as int);
                    lemma_registry_remove(before, i as int);
                    lemma_distinct_handles_remove(before, i as int, handle);
                }
                let holder = records.remove(i);
                if !same_text(holder.server_name.as_str(), process.server_name.as_str()) {
                    let ghost middle = records@;
                    match position_in(&records, process.server_name.as_str()) {
                        Some(j) => {
                            proof {
                                lemma_registry_entry(middle, j as int);
                                lemma_registry_remove(middle, j as int);
                                lemma_distinct_handles_remove(middle, j as int, handle);
                            }
                            let named_before = records.remove(j);
                            displaced.push(named_before);
                        },
                        None => {},
                    }
                }
                displaced.push(holder);
            },
            None => {
                proof {
                    lemma_handle_absent(before, handle);
                }
                match position_in(&records, process.server_name.as_str()) {
                    Some(j) => {
                        proof {
                            lemma_registry_entry(before, j as int);
                            lemma_registry_remove(before, j as int);
                            lemma_distinct_handles_remove(before, j as int, handle);
                        }
                        let named_before = records.remove(j);
                        displaced.push(named_before);
                    },
                    None => {},
                }
            },
        }
        proof {
            assert(!has_key(named(records@), name)) by {
                if has_key(named(records@), name) {
                    assert(registry_of(records@).dom().contains(name));
                }
            }
            lemma_registry_push(records@, process);
            lemma_distinct_handles_push(records@, process);
            lemma_handles_differ(records@.push(process));
            assert(registry_of(records@).insert(name, process) =~= after_insert(start, process));
            assert(displaced@ =~= displaced_by(start, process));
        }
        records.push(process);
        self.put_records(records);
        displaced
    }

    /// Unregisters the process named `server_name` and hands its record back,
    /// so that its stop channel can be signalled. The name is free again at
    /// once, whether or not the process has exited. Without such a process
    /// nothing changes.
    pub fn kill_process(&mut self, server_name: &str) -> (outcome: Result<
        ActiveProcess,
        SupervisorError,
    >)
        ensures
            final(self).secrets() == old(self).secrets(),
            final(self).issued() == old(self).issued(),
            match outcome {
                Ok(record) => {
                    &&& old(self).running(server_name@)
                    &&& record == old(self).processes()[server_name@]
                    &&& final(self).processes() == old(self).processes().remove(server_name@)
                },
                Err(error) => {
                    &&& !old(self).running(server_name@)
                    &&& error@ == SupervisorFault::NotFound(server_name@)
                    &&& final(self).processes() == old(self).processes()
                },
            },
    {
        match self.position(server_name) {
            Some(i) => {
                let mut records = self.take_records();
                proof {
                    lemma_registry_entry(records@, i as int);
                    lemma_registry_remove(records@, i as int);
                }
                let record = records.remove(i);
                self.put_records(records);
                Ok(record)
            },
            None => Err(SupervisorError::NotFound { name: server_name.to_owned() }),
        }
    }

    /// Unregisters every process and hands the records back, so that each stop
    /// channel can be signalled.
    pub fn kill_all(&mut self) -> (records: Vec<ActiveProcess>)
        ensures
            final(self).processes() == Map::<Seq<char>, ActiveProcess>::empty(),
            final(self).secrets() == old(self).secrets(),
            final(self).issued() == old(self).issued(),
            distinct_names(records@),
            distinct_handles(records@),
            registry_of(records@) == old(self).processes(),
    {
        let records = self.take_records();
        assert(registry_of(self.processes@) =~= Map::<Seq<char>, ActiveProcess>::empty());
        records
    }

    /// The input queue of the process named `server_name`: what is sent on it
    /// reaches the process's standard input.
    pub fn send_to_stdin(&self, server_name: &str) -> (outcome: Result<
        &Sender<String>,
        SupervisorError,
    >)
        ensures
            match outcome {
                Ok(queue) => self.running(server_name@) && *queue == self.processes()[server_name@].stdin_tx,
                Err(error) => !self.running(server_name@) && error@ == SupervisorFault::NotFound(
                    server_name@,
                ),
            },
    {
        proof {
            use_type_invariant(self);
        }
        match self.position(server_name) {
            Some(i) => {
                proof {
                    lemma_registry_entry(self.processes@, i as int);
                }
                Ok(&self.processes[i].stdin_tx)
            },
            None => Err(SupervisorError::NotFound { name: server_name.to_owned() }),
        }
    }

    /// The names of the running processes: each once, in no particular order.
    pub fn list_running(&self) -> (names: Vec<String>)
        ensures
            texts_of(names@).no_duplicates(),
            forall|name: Seq<char>| texts_of(names@).contains(name) <==> self.running(name),
            self.processes().dom().finite(),
            names@.len() == self.processes().dom().len(),
    {
        proof {
            use_type_invariant(self);
            lemma_map_size(named(self.processes@));
        }
        let mut names: Vec<String> = Vec::new();
        let mut i: usize = 0;
        while i < self.processes.len()
            invariant
                i <= self.processes@.len(),
                names@.len() == i,
                forall|k: int| 0 <= k < i ==> names@[k]@ == self.processes@[k].server_name@,
            decreases self.processes@.len() - i,
        {
            names.push(self.processes[i].server_name.clone());
            i += 1;
        }
        proof {
            let listed = texts_of(names@);
            let entries = named(self.processes@);
            assert forall|a: int, b: int|
                0 <= a < listed.len() && 0 <= b < listed.len() && a != b implies listed[a]
                != listed[b] by {
                assert(entries[a].0 == listed[a] && entries[b].0 == listed[b]);
            }
            assert forall|name: Seq<char>| listed.contains(name) <==> self.running(name) by {
                if listed.contains(name) {
                    let k = choose|k: int| 0 <= k < listed.len() && listed[k] == name;
                    assert(entries[k].0 == name);
                }
                if has_key(entries, name) {
                    let k = index_of_key(entries, name);
                    assert(listed[k] == name);
                }
            }
        }
        names
    }

    /// Clears up after the process that ran under `server_name` with
    /// `handle`: its record leaves the registry and is handed back if it
    /// still stands there. A name that is free, or that by now belongs to
    /// another process, is left alone, whatever that process's id.
    pub fn remove_exited(&mut self, server_name: &str, handle: u64) -> (removed: Option<
        ActiveProcess,
    >)
        ensures
            final(self).processes() == after_exit(old(self).processes(), server_name@, handle),
            handles_differ(final(self).processes()),
            final(self).secrets() == old(self).secrets(),
            final(self).issued() == old(self).issued(),
            removed == if old(self).running(server_name@) && old(self).processes()[server_name@].handle
                == handle {
                Some(old(self).processes()[server_name@])
            } else {
                None::<ActiveProcess>
            },
    {
        proof {
            use_type_invariant(&*self);
        }
        match self.position(server_name) {
            Some(i) => {
                proof {
                    lemma_registry_entry(self.processes@, i as int);
                }
                if self.processes[i].handle == handle {
                    let mut records = self.take_records();
                    proof {
                        lemma_registry_remove(records@, i as int);
                        lemma_distinct_handles_remove(records@, i as int, handle);
                        lemma_handles_differ(records@.remove(i as int));
                    }
                    let record = records.remove(i);
                    self.put_records(records);
                    Some(record)
                } else {
                    proof {
                        lemma_handles_differ(self.processes@);
                    }
                    None
                }
            },
            None => {
                proof {
                    lemma_handles_differ(self.processes@);
                }
                None
            },
        }
    }

    /// Issues the next handle, unless all handles were issued.
    fn issue_handle(&mut self) -> (handle: Option<u64>)
        ensures
            final(self).processes() == old(self).processes(),
            final(self).secrets() == old(self).secrets(),
            match handle {
                Some(h) => h == old(self).issued() && final(self).issued() == old(self).issued()
                    + 1,
                None => old(self).issued() == u64::MAX && final(self).issued() == old(
                    self,
                ).issued(),
            },
    {
        proof {
            use_type_invariant(&*self);
        }
        if self.next_handle == u64::MAX {
            None
        } else {
            let handle = self.next_handle;
            self.next_handle = handle + 1;
            Some(handle)
        }
    }

    /// Adds each non-empty value that is not yet known to the secrets.
    pub fn register_secrets(&mut self, secrets: Vec<String>)
        ensures
            final(self).secrets() == register_all(old(self).secrets(), texts_of(secrets@)),
            final(self).processes() == old(self).processes(),
            final(self).issued() == old(self).issued(),
    {
        proof {
            use_type_invariant(&*self);
        }
        let mut set = SecretSet::new();
        core::mem::swap(&mut self.secrets, &mut set);
        set.register(secrets);
        core::mem::swap(&mut self.secrets, &mut set);
    }

    /// `content` with every registered secret replaced by `[REDACTED]`.
    pub fn redact_secrets(&self, content: &str) -> (clean: String)
        ensures
            clean@ == redact_text(self.secrets(), content@),
            all_marker_safe(self.secrets()) ==> free_of_secrets(self.secrets(), clean@),
    {
        self.secrets.redact(content)
    }

    /// A copy of the secrets as they stand now, for the tasks of one process.
    pub fn snapshot_secrets(&self) -> (copy: SecretSet)
        ensures
            copy@ == self.secrets(),
    {
        self.secrets.snapshot()
    }
}

impl Default for ProcessManager {
    fn default() -> (manager: Self)
        ensures
            manager.processes() == Map::<Seq<char>, ActiveProcess>::empty(),
            manager.secrets() == Seq::<Seq<char>>::empty(),
            manager.issued() == 0,
    {
        ProcessManager::new()
    }
}

/// The values of an environment, in the order of its entries.
pub open spec fn env_values(env: Seq<(String, String)>) -> Seq<Seq<char>> {
    Seq::new(env.len(), |i: int| env[i].1@)
}

/// What an admitted spawn request asks the operating system for, and the
/// secrets that the new process's tasks redact.
pub struct SpawnPlan {
    /// Name under which the process will be registered.
    pub server_name: String,
    /// Executable to launch.
    pub command: String,
    /// Arguments of the executable.
    pub args: Vec<String>,
    /// Environment variables of the process, as pairs of name and value.
    pub env: Vec<(String, String)>,
    /// Working directory, if one was asked for.
    pub cwd: Option<String>,
    /// The secrets as they stood when the request was admitted.
    pub secrets: SecretSet,
    /// The handle of the process to be: no other admitted spawn has it.
    pub handle: u64,
}

/// What is reported when the handles have run out.
pub open spec fn no_handle_text() -> Seq<char> {
    "no process handle is left"@
}

/// What becomes of a spawn request for `command` under `server_name` when
/// `issued` handles were given out before: the fault that refuses it, or
/// none. The command is judged first, then the name; a request that passes
/// both fails only where no handle is left.
pub open spec fn spawn_refusal(
    processes: Map<Seq<char>, ActiveProcess>,
    server_name: Seq<char>,
    command: Seq<char>,
    issued: u64,
) -> Option<SupervisorFault> {
    if !command_allowed(command) {
        Some(SupervisorFault::CommandNotAllowed(command))
    } else if processes.dom().contains(server_name) {
        Some(SupervisorFault::AlreadyRunning(server_name))
    } else if issued == u64::MAX {
        Some(SupervisorFault::SpawnFailed(no_handle_text()))
    } else {
        None
    }
}

/// Admits or refuses a request to spawn a server. The command must be
/// allowed and the name must be free; a refused request changes nothing. An
/// admitted request registers the values of `env` as secrets and yields the
/// plan for the launch, with a handle that no earlier request got; the
/// process itself is registered with [`ProcessManager::insert_process`] once
/// it runs.
pub fn spawn_mcp_server(
    process_manager: &mut ProcessManager,
    server_name: String,
    command: String,
    args: Vec<String>,
    env: Vec<(String, String)>,
    cwd: Option<String>,
) -> (outcome: Result<SpawnPlan, SupervisorError>)
    ensures
        final(process_manager).processes() == old(process_manager).processes(),
        match outcome {
            Ok(plan) => {
                &&& spawn_refusal(
                    old(process_manager).processes(),
                    server_name@,
                    command@,
                    old(process_manager).issued(),
                ) is None
                &&& final(process_manager).secrets() == register_all(
                    old(process_manager).secrets(),
                    env_values(env@),
                )
                &&& plan.handle == old(process_manager).issued()
                &&& final(process_manager).issued() == old(process_manager).issued() + 1
                &&& plan.secrets@ == final(process_manager).secrets()
                &&& plan.server_name == server_name
                &&& plan.command == command
                &&& plan.args == args
                &&& plan.env == env
                &&& plan.cwd == cwd
            },
            Err(error) => {
                &&& spawn_refusal(
                    old(process_manager).processes(),
                    server_name@,
                    command@,
                    old(process_manager).issued(),
                ) == Some(error@)
                &&& final(process_manager).secrets() == old(process_manager).secrets()
                &&& final(process_manager).issued() == old(process_manager).issued()
            },
        },
{
    if !is_command_allowed(command.as_str()) {
        return Err(SupervisorError::CommandNotAllowed { command });
    }
    if process_manager.is_running(server_name.as_str()) {
        return Err(SupervisorError::AlreadyRunning { name: server_name });
    }
    let handle = match process_manager.issue_handle() {
        Some(handle) => handle,
        None => {
            return Err(
                SupervisorError::SpawnFailed {
                    reason: String::from_str("no process handle is left"),
                },
            );
        },
    };
    let mut values: Vec<String> = Vec::new();
    let mut i: usize = 0;
    while i < env.len()
        invariant
            i <= env@.len(),
            values@.len() == i,
            forall|k: int| 0 <= k < i ==> values@[k]@ == env@[k].1@,
        decreases env@.len() - i,
    {
        values.push(env[i].1.clone());
        i += 1;
    }
    assert(texts_of(values@) =~= env_values(env@));
    process_manager.register_secrets(values);
    let secrets = process_manager.snapshot_secrets();
    Ok(SpawnPlan { server_name, command, args, env, cwd, secrets, handle })
}

} // verus!
