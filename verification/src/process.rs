//! Finding a running process by the name of its main module.
use crate::c_string::{
    c_bytes, is_terminated, law_string_ends_at_the_first_nul, read_c_string, terminator,
};
use crate::text::{
    ascii_chars, ascii_lower, from_utf8_lossy, is_ascii_bytes, lemma_ascii_decodes, lowercase,
    to_lowercase, utf8_lossy,
};
use vstd::prelude::*;

verus! {

/// Right to ask a process about itself.
pub const PROCESS_QUERY_INFORMATION: u32 = 0x0400;

/// Right to read the memory of a process.
pub const PROCESS_VM_READ: u32 = 0x0010;

/// Rights with which a process is opened to learn its name.
pub const SEARCH_ACCESS: u32 = 0x0410;

/// How many process identifiers one listing has room for.
pub const PROCESS_SLOTS: usize = 256;

/// How many modules of a process are asked for.
pub const MODULE_SLOTS: usize = 64;

/// Size of the buffer for a module's name, in C characters.
pub const NAME_LENGTH: usize = 128;

/// The rights of a search are to ask a process about itself and to read its memory.
pub proof fn law_search_access_is_query_and_read()
    ensures
        SEARCH_ACCESS == PROCESS_QUERY_INFORMATION | PROCESS_VM_READ,
{
    assert(SEARCH_ACCESS == PROCESS_QUERY_INFORMATION | PROCESS_VM_READ) by (bit_vector);
}

/// The text that a buffer with a module's name stands for, in lower case.
pub open spec fn folded_name(buffer: Seq<i8>) -> Seq<char> {
    lowercase(utf8_lossy(c_bytes(buffer)))
}

/// How many process identifiers fill `needed` bytes.
pub open spec fn listed_count(needed: u32) -> int {
    needed as int / 4
}

/// Whether the module name in `buffer` is `wanted`, a text in lower case.
///
/// Of an ASCII name this is a comparison without regard to the case of letters.
pub fn is_named(buffer: &[i8], wanted: &String) -> (same: bool)
    requires
        is_terminated(buffer@),
    ensures
        same == (folded_name(buffer@) == wanted@),
        is_ascii_bytes(c_bytes(buffer@)) ==> same == (ascii_lower(ascii_chars(c_bytes(buffer@)))
            == wanted@),
        forall|n: int|
            0 <= n < buffer@.len() && #[trigger] buffer@[n] == 0 && (forall|i: int|
                0 <= i < n ==> (#[trigger] buffer@[i]) > 0) ==> same == {
                &&& wanted@.len() == n
                &&& forall|i: int|
                    0 <= i < n ==> (#[trigger] wanted@[i]) as int == if 65 <= buffer@[i] <= 90 {
                        buffer@[i] + 32
                    } else {
                        buffer@[i] as int
                    }
            },
{
    let bytes = read_c_string(buffer);
    let name = from_utf8_lossy(bytes.as_slice());
    let folded = to_lowercase(name.as_str());
    proof {
        if is_ascii_bytes(bytes@) {
            lemma_ascii_decodes(bytes@);
        }
        assert forall|n: int|
            0 <= n < buffer@.len() && #[trigger] buffer@[n] == 0 && (forall|i: int|
                0 <= i < n ==> (#[trigger] buffer@[i]) > 0) implies (folded@ == wanted@) == {
            &&& wanted@.len() == n
            &&& forall|i: int|
                0 <= i < n ==> (#[trigger] wanted@[i]) as int == if 65 <= buffer@[i] <= 90 {
                    buffer@[i] + 32
                } else {
                    buffer@[i] as int
                }
        } by {
            lemma_ascii_name(buffer@, n, wanted@);
        }
    }
    folded == *wanted
}

proof fn lemma_ascii_name(buffer: Seq<i8>, n: int, wanted: Seq<char>)
    requires
        0 <= n < buffer.len(),
        buffer[n] == 0,
        forall|i: int| 0 <= i < n ==> (#[trigger] buffer[i]) > 0,
    ensures
        is_ascii_bytes(c_bytes(buffer)),
        (ascii_lower(ascii_chars(c_bytes(buffer))) == wanted) == {
            &&& wanted.len() == n
            &&& forall|i: int|
                0 <= i < n ==> (#[trigger] wanted[i]) as int == if 65 <= buffer[i] <= 90 {
                    buffer[i] + 32
                } else {
                    buffer[i] as int
                }
        },
{
    law_string_ends_at_the_first_nul(buffer, n);
    let bytes = c_bytes(buffer);
    let folded = ascii_lower(ascii_chars(bytes));
    assert forall|i: int| 0 <= i < n implies (#[trigger] bytes[i]) as int == buffer[i] by {
        let c = buffer[i];
        assert(c > 0 ==> (c as u8) as int == c as int) by (bit_vector);
    }
    assert forall|i: int| 0 <= i < n implies (#[trigger] folded[i]) as int == if 65 <= buffer[i]
        <= 90 {
        buffer[i] + 32
    } else {
        buffer[i] as int
    } by {
        assert(bytes[i] as int == buffer[i]);
    }
    if wanted.len() == n && forall|i: int|
        0 <= i < n ==> (#[trigger] wanted[i]) as int == if 65 <= buffer[i] <= 90 {
            buffer[i] + 32
        } else {
            buffer[i] as int
        } {
        assert forall|i: int| 0 <= i < n implies folded[i] == wanted[i] by {
            assert(folded[i] as int == wanted[i] as int);
        }
        assert(folded =~= wanted);
    }
}

/// Where a search stands.
#[derive(Clone, Copy, Debug, PartialEq, Eq, Structural)]
pub enum SearchPhase {
    /// The processes are yet to be listed.
    Listing,
    /// The process at hand is to be opened.
    Opening,
    /// The process at hand is open; the name of its main module is not known.
    Naming { process: usize },
    /// The process at hand bears the wanted name.
    Inspecting { process: usize },
    /// Nothing more is asked of the process at hand.
    Closing { process: usize },
}

/// The call that a search waits for.
#[derive(Clone, Copy, Debug, PartialEq, Eq)]
pub enum SearchAction {
    /// List the processes, at most `slots` of them.
    List { slots: usize },
    /// Open the process `pid` with the rights `access`.
    Open { access: u32, inherit: bool, pid: u32 },
    /// Read the base name of the first of at most `modules` modules into a buffer of
    /// `length` characters.
    Name { process: usize, modules: usize, length: usize },
    /// Ask about the first module.
    Inspect { process: usize },
    /// Close the handle of the process.
    Close { process: usize },
    /// Nothing: this is what the search has found.
    Report { found: Option<u32> },
}

/// What a call answered.
#[derive(Clone, Copy, Debug, PartialEq, Eq)]
pub enum SearchEvent<'a> {
    /// The identifiers listed and how many bytes of them are filled.
    Listed { slots: &'a [u32], needed: u32 },
    /// The handle of the process, null where it could not be opened.
    Opened { process: usize },
    /// The buffer with the name of the module.
    Named { name: &'a [i8] },
    /// The module has been asked about.
    Inspected,
    /// The handle has been closed.
    Closed,
}

impl<'a> SearchEvent<'a> {
    /// The answer is one that the system gives: a listing that fits its slots, a
    /// name that ends within its buffer.
    pub open spec fn is_sound(self) -> bool {
        match self {
            SearchEvent::Listed { slots, needed } => listed_count(needed) <= slots@.len(),
            SearchEvent::Named { name } => is_terminated(name@),
            _ => true,
        }
    }

    /// Whether the answer is sound.
    pub fn check(&self) -> (sound: bool)
        ensures
            sound == self.is_sound(),
    {
        match self {
            SearchEvent::Listed { slots, needed } => (*needed / 4) as usize <= slots.len(),
            SearchEvent::Named { name } => terminator(name).is_some(),
            _ => true,
        }
    }
}

/// A search as its contracts see it.
pub struct SearchView {
    /// The wanted name in lower case.
    pub wanted: Seq<char>,
    /// The processes listed.
    pub pids: Seq<u32>,
    /// The process at hand.
    pub index: int,
    /// The last process found to bear the name; 0 if none.
    pub found: u32,
    /// Where the search stands.
    pub phase: SearchPhase,
}

impl SearchView {
    /// The process at hand exists wherever it is open.
    pub open spec fn is_valid(self) -> bool {
        &&& 0 <= self.index <= self.pids.len()
        &&& (self.phase is Naming || self.phase is Inspecting || self.phase is Closing)
            ==> self.index < self.pids.len()
    }

    /// The call to make.
    pub open spec fn request(self) -> SearchAction {
        match self.phase {
            SearchPhase::Listing => SearchAction::List { slots: PROCESS_SLOTS },
            SearchPhase::Opening => if self.index < self.pids.len() {
                SearchAction::Open {
                    access: SEARCH_ACCESS,
                    inherit: false,
                    pid: self.pids[self.index],
                }
            } else {
                SearchAction::Report {
                    found: if self.found == 0 {
                        None
                    } else {
                        Some(self.found)
                    },
                }
            },
            SearchPhase::Naming { process } => SearchAction::Name {
                process,
                modules: MODULE_SLOTS,
                length: NAME_LENGTH,
            },
            SearchPhase::Inspecting { process } => SearchAction::Inspect { process },
            SearchPhase::Closing { process } => SearchAction::Close { process },
        }
    }

    /// The search goes on with the next process.
    pub open spec fn at_next(self) -> SearchView {
        SearchView { index: self.index + 1, phase: SearchPhase::Opening, ..self }
    }

    /// The search once it is known whether the process at hand bears the name.
    pub open spec fn judged(self, same: bool) -> SearchView {
        match self.phase {
            SearchPhase::Naming { process } => if same {
                SearchView {
                    found: self.pids[self.index],
                    phase: SearchPhase::Inspecting { process },
                    ..self
                }
            } else {
                SearchView { phase: SearchPhase::Closing { process }, ..self }
            },
            _ => self,
        }
    }

    /// The search after an answer. An answer to a call that the search does not wait
    /// for changes nothing.
    pub open spec fn after(self, event: SearchEvent<'_>) -> SearchView {
        match (self.phase, event) {
            (SearchPhase::Listing, SearchEvent::Listed { slots, needed }) => SearchView {
                pids: slots@.take(listed_count(needed)),
                index: 0,
                phase: SearchPhase::Opening,
                ..self
            },
            (SearchPhase::Opening, SearchEvent::Opened { process }) => if self.index
                >= self.pids.len() {
                self
            } else if process == 0 {
                self.at_next()
            } else {
                SearchView { phase: SearchPhase::Naming { process }, ..self }
            },
            (SearchPhase::Naming { .. }, SearchEvent::Named { name }) => self.judged(
                folded_name(name@) == self.wanted,
            ),
            (SearchPhase::Inspecting { process }, SearchEvent::Inspected) => SearchView {
                phase: SearchPhase::Closing { process },
                ..self
            },
            (SearchPhase::Closing { .. }, SearchEvent::Closed) => self.at_next(),
            _ => self,
        }
    }
}

/// A search for the process whose main module bears a name.
pub struct ProcessSearch {
    wanted: String,
    pids: Vec<u32>,
    index: usize,
    found: u32,
    phase: SearchPhase,
}

impl View for ProcessSearch {
    type V = SearchView;

    closed spec fn view(&self) -> SearchView {
        SearchView {
            wanted: self.wanted@,
            pids: self.pids@,
            index: self.index as int,
            found: self.found,
            phase: self.phase,
        }
    }
}

impl ProcessSearch {
    #[verifier::type_invariant]
    spec fn is_valid(self) -> bool {
        self@.is_valid()
    }

    /// A search for the process whose main module is called `s`, whatever the case of
    /// its letters.
    pub fn new(s: &str) -> (search: ProcessSearch)
        ensures
            search@ == (SearchView {
                wanted: lowercase(s@),
                pids: Seq::empty(),
                index: 0,
                found: 0,
                phase: SearchPhase::Listing,
            }),
            search@.is_valid(),
            vstd::utf8::is_ascii_chars(s@) ==> search@.wanted == ascii_lower(s@),
    {
        let wanted = to_lowercase(s);
        ProcessSearch { wanted, pids: Vec::new(), index: 0, found: 0, phase: SearchPhase::Listing }
    }

    /// The call to make next.
    pub fn next(&self) -> (action: SearchAction)
        ensures
            action == self@.request(),
    {
        match self.phase {
            SearchPhase::Listing => SearchAction::List { slots: PROCESS_SLOTS },
            SearchPhase::Opening => {
                if self.index < self.pids.len() {
                    SearchAction::Open {
                        access: SEARCH_ACCESS,
                        inherit: false,
                        pid: self.pids[self.index],
                    }
                } else if self.found == 0 {
                    SearchAction::Report { found: None }
                } else {
                    SearchAction::Report { found: Some(self.found) }
                }
            },
            SearchPhase::Naming { process } => SearchAction::Name {
                process,
                modules: MODULE_SLOTS,
                length: NAME_LENGTH,
            },
            SearchPhase::Inspecting { process } => SearchAction::Inspect { process },
            SearchPhase::Closing { process } => SearchAction::Close { process },
        }
    }

    /// Takes in whether the process at hand bears the name.
    pub fn judge(self, same: bool) -> (search: ProcessSearch)
        ensures
            search@ == self@.judged(same),
            search@.is_valid(),
    {
        proof {
            use_type_invariant(&self);
        }
        match self.phase {
            SearchPhase::Naming { process } => {
                let ProcessSearch { wanted, pids, index, found, .. } = self;
                if same {
                    let pid: u32 = pids[index];
                    let phase = SearchPhase::Inspecting { process };
                    ProcessSearch { wanted, pids, index, found: pid, phase }
                } else {
                    let phase = SearchPhase::Closing { process };
                    ProcessSearch { wanted, pids, index, found, phase }
                }
            },
            _ => self,
        }
    }

    /// Takes in what the last call answered.
    pub fn advance(self, event: SearchEvent<'_>) -> (search: ProcessSearch)
        requires
            event.is_sound(),
        ensures
            search@ == self@.after(event),
            search@.is_valid(),
    {
        proof {
            use_type_invariant(&self);
        }
        match (self.phase, event) {
            (SearchPhase::Listing, SearchEvent::Listed { slots, needed }) => {
                let count: usize = (needed / 4) as usize;
                let pids = first(slots, count);
                let ProcessSearch { wanted, found, .. } = self;
                ProcessSearch { wanted, pids, index: 0, found, phase: SearchPhase::Opening }
            },
            (SearchPhase::Opening, SearchEvent::Opened { process }) => {
                if self.index >= self.pids.len() {
                    self
                } else if process == 0 {
                    let ProcessSearch { wanted, pids, index, found, phase } = self;
                    ProcessSearch { wanted, pids, index: index + 1, found, phase }
                } else {
                    let ProcessSearch { wanted, pids, index, found, .. } = self;
                    let phase = SearchPhase::Naming { process };
                    ProcessSearch { wanted, pids, index, found, phase }
                }
            },
            (SearchPhase::Naming { .. }, SearchEvent::Named { name }) => {
                let same: bool = is_named(name, &self.wanted);
                self.judge(same)
            },
            (SearchPhase::Inspecting { process }, SearchEvent::Inspected) => {
                let ProcessSearch { wanted, pids, index, found, .. } = self;
                let phase = SearchPhase::Closing { process };
                ProcessSearch { wanted, pids, index, found, phase }
            },
            (SearchPhase::Closing { .. }, SearchEvent::Closed) => {
                let ProcessSearch { wanted, pids, index, found, .. } = self;
                let phase = SearchPhase::Opening;
                assert(index < pids.len());
                ProcessSearch { wanted, pids, index: index + 1, found, phase }
            },
            _ => self,
        }
    }
}

/// The first `count` of `slots`.
fn first(slots: &[u32], count: usize) -> (pids: Vec<u32>)
    requires
        count <= slots@.len(),
    ensures
        pids@ == slots@.take(count as int),
{
    let mut pids: Vec<u32> = Vec::new();
    let mut i: usize = 0;
    while i < count
        invariant
            i <= count <= slots@.len(),
            pids@ == slots@.take(i as int),
        decreases count - i,
    {
        pids.push(slots[i]);
        i += 1;
    }
    pids
}

/// What the system tells of one process.
#[derive(Clone, Debug, PartialEq, Eq)]
pub struct ProcessRecord {
    /// Its identifier.
    pub pid: u32,
    /// The buffer with the name of its main module; `None` where the process could not
    /// be opened.
    pub module_name: Option<Vec<i8>>,
}

impl ProcessRecord {
    /// A name that is known ends within its buffer.
    pub open spec fn is_sound(self) -> bool {
        self.module_name matches Some(name) ==> is_terminated(name@)
    }

    /// Whether the record is sound.
    pub fn check(&self) -> (sound: bool)
        ensures
            sound == self.is_sound(),
    {
        match &self.module_name {
            Some(name) => terminator(name.as_slice()).is_some(),
            None => true,
        }
    }

    /// The process could be opened and its main module is called `s`, whatever the
    /// case of its letters.
    pub open spec fn bears(self, s: Seq<char>) -> bool {
        self.module_name matches Some(name) && folded_name(name@) == lowercase(s)
    }
}

/// `i` is the last of the marks that are set.
pub open spec fn is_last_mark(marks: Seq<bool>, i: int) -> bool {
    &&& 0 <= i < marks.len()
    &&& marks[i]
    &&& forall|j: int| i < j < marks.len() ==> !(#[trigger] marks[j])
}

/// Which of `processes` bear the name `s`.
pub open spec fn bearers(processes: Seq<ProcessRecord>, s: Seq<char>) -> Seq<bool> {
    Seq::new(processes.len(), |i: int| processes[i].bears(s))
}

/// The identifier at the last mark that is set; `unmarked` if none is.
spec fn last_marked(marks: Seq<bool>, pids: Seq<u32>, unmarked: u32) -> u32
    decreases marks.len(),
{
    if marks.len() == 0 {
        unmarked
    } else if marks.last() {
        pids[marks.len() - 1]
    } else {
        last_marked(marks.drop_last(), pids, unmarked)
    }
}

proof fn lemma_last_marked(marks: Seq<bool>, pids: Seq<u32>, unmarked: u32)
    ensures
        (forall|i: int| 0 <= i < marks.len() ==> !(#[trigger] marks[i])) ==> last_marked(
            marks,
            pids,
            unmarked,
        ) == unmarked,
        forall|i: int| #[trigger]
            is_last_mark(marks, i) ==> last_marked(marks, pids, unmarked) == pids[i],
        (exists|i: int| 0 <= i < marks.len() && #[trigger] marks[i]) ==> exists|i: int|
            is_last_mark(marks, i),
    decreases marks.len(),
{
    if marks.len() > 0 {
        let rest = marks.drop_last();
        let last = marks.len() - 1;
        lemma_last_marked(rest, pids, unmarked);
        assert(forall|i: int| 0 <= i < last ==> #[trigger] marks[i] == rest[i]);
        if marks[last] {
            assert(is_last_mark(marks, last));
        } else {
            assert forall|i: int| is_last_mark(marks, i) == is_last_mark(rest, i) by {
                if is_last_mark(marks, i) {
                    assert forall|j: int| i < j < last implies !(#[trigger] rest[j]) by {
                        assert(!marks[j]);
                    }
                }
            }
            if exists|i: int| 0 <= i < marks.len() && #[trigger] marks[i] {
                let i = choose|i: int| 0 <= i < marks.len() && #[trigger] marks[i];
                assert(rest[i]);
                let k = choose|k: int| is_last_mark(rest, k);
                assert(is_last_mark(marks, k));
            }
        }
    }
}

/// The process whose main module is called `s`, whatever the case of its letters.
///
/// Of several the last one listed is taken. The identifier 0 counts as none, also
/// where it belongs to the last process of that name.
pub fn find_process(s: &str, processes: &[ProcessRecord]) -> (found: Option<u32>)
    requires
        forall|i: int| 0 <= i < processes@.len() ==> (#[trigger] processes@[i]).is_sound(),
    ensures
        match found {
            Some(pid) => pid != 0 && exists|i: int| #[trigger]
                is_last_mark(bearers(processes@, s@), i) && processes@[i].pid == pid,
            None => (forall|i: int|
                0 <= i < processes@.len() ==> !(#[trigger] processes@[i]).bears(s@)) || exists|
                i: int,
            | #[trigger]
                is_last_mark(bearers(processes@, s@), i) && processes@[i].pid == 0,
        },
        match found {
            Some(pid) => pid != 0 && exists|i: int|
                0 <= i < processes@.len() && (#[trigger] processes@[i]).bears(s@)
                    && processes@[i].pid == pid && forall|j: int|
                    i < j < processes@.len() ==> !(#[trigger] processes@[j]).bears(s@),
            None => forall|i: int|
                0 <= i < processes@.len() && (#[trigger] processes@[i]).bears(s@) && (forall|
                    j: int,
                |
                    i < j < processes@.len() ==> !(#[trigger] processes@[j]).bears(s@))
                    ==> processes@[i].pid == 0,
        },
        vstd::utf8::is_ascii_chars(s@) ==> forall|i: int|
            0 <= i < processes@.len() ==> ((#[trigger] processes@[i]).module_name matches Some(name)
                ==> is_ascii_bytes(c_bytes(name@)) ==> processes@[i].bears(s@) == (ascii_lower(
                ascii_chars(c_bytes(name@)),
            ) == ascii_lower(s@))),
{
    let ProcessSearch { wanted, found, .. } = ProcessSearch::new(s);
    let mut pids: Vec<u32> = Vec::new();
    let mut n: usize = 0;
    while n < processes.len()
        invariant
            n <= processes@.len(),
            pids@.len() == n,
            forall|i: int| 0 <= i < n ==> pids@[i] == (#[trigger] processes@[i]).pid,
        decreases processes@.len() - n,
    {
        pids.push(processes[n].pid);
        n += 1;
    }
    let ghost all = pids@;
    let mut search = ProcessSearch { wanted, pids, index: 0, found, phase: SearchPhase::Opening };
    let mut k: usize = 0;
    while k < processes.len()
        invariant
            k <= processes@.len(),
            forall|i: int| 0 <= i < processes@.len() ==> (#[trigger] processes@[i]).is_sound(),
            all.len() == processes@.len(),
            forall|i: int|
                0 <= i < processes@.len() ==> all[i] == (#[trigger] processes@[i]).pid,
            search@.wanted == lowercase(s@),
            search@.pids == all,
            search@.index == k,
            search@.phase == SearchPhase::Opening,
            search@.found == last_marked(bearers(processes@, s@).take(k as int), all, 0),
            vstd::utf8::is_ascii_chars(s@) ==> search@.wanted == ascii_lower(s@),
            vstd::utf8::is_ascii_chars(s@) ==> forall|i: int|
                0 <= i < k ==> ((#[trigger] processes@[i]).module_name matches Some(name)
                    ==> is_ascii_bytes(c_bytes(name@)) ==> processes@[i].bears(s@) == (
                ascii_lower(ascii_chars(c_bytes(name@))) == ascii_lower(s@))),
        decreases processes@.len() - k,
    {
        let record: &ProcessRecord = &processes[k];
        assert(processes@[k as int].is_sound());
        let ghost marks = bearers(processes@, s@);
        assert(marks.take(k + 1).drop_last() =~= marks.take(k as int));
        match &record.module_name {
            None => {
                search = search.advance(SearchEvent::Opened { process: 0 });
            },
            Some(name) => {
                search = search.advance(SearchEvent::Opened { process: 1 });
                let same: bool = is_named(name.as_slice(), &search.wanted);
                search = search.judge(same);
                if same {
                    search = search.advance(SearchEvent::Inspected);
                }
                search = search.advance(SearchEvent::Closed);
            },
        }
        k += 1;
    }
    proof {
        let marks = bearers(processes@, s@);
        assert(marks.take(k as int) =~= marks);
        lemma_last_marked(marks, all, 0);
        assert forall|i: int|
            0 <= i < processes@.len() && (#[trigger] processes@[i]).bears(s@) && (forall|j: int|
                i < j < processes@.len() ==> !(#[trigger] processes@[j]).bears(s@)) implies
            processes@[i].pid == search@.found by {
            assert forall|j: int| i < j < marks.len() implies !(#[trigger] marks[j]) by {
                assert(!processes@[j].bears(s@));
            }
            assert(is_last_mark(marks, i));
        }
        if exists|i: int| 0 <= i < marks.len() && #[trigger] marks[i] {
            let i = choose|i: int| is_last_mark(marks, i);
            assert(is_last_mark(marks, i));
            assert(processes@[i].bears(s@));
            assert forall|j: int| i < j < processes@.len() implies !(
            #[trigger] processes@[j]).bears(s@) by {
                assert(!marks[j]);
            }
        } else {
            assert forall|i: int| 0 <= i < processes@.len() implies !(
            #[trigger] processes@[i]).bears(s@) by {
                assert(!marks[i]);
            }
        }
    }
    match search.next() {
        SearchAction::Report { found } => found,
        _ => None,
    }
}

/// A process that was opened is asked for its name and then closed, and only then
/// does the search go on; if it bears the name it becomes the one found.
pub proof fn law_opened_process_is_closed(search: SearchView, process: usize, name: &[i8])
    requires
        search.is_valid(),
        search.phase is Opening,
        search.index < search.pids.len(),
        process != 0,
    ensures
        ({
            let opened = search.after(SearchEvent::Opened { process });
            let named = opened.after(SearchEvent::Named { name });
            let done = named.after(SearchEvent::Inspected);
            let closed = done.after(SearchEvent::Closed);
            let same = folded_name(name@) == search.wanted;
            &&& opened.request() == (SearchAction::Name {
                process,
                modules: MODULE_SLOTS,
                length: NAME_LENGTH,
            })
            &&& same ==> named.request() == (SearchAction::Inspect { process })
            &&& !same ==> named == done
            &&& done.request() == (SearchAction::Close { process })
            &&& closed.index == search.index + 1
            &&& closed.phase is Opening
            &&& closed.found == if same {
                search.pids[search.index]
            } else {
                search.found
            }
        }),
{
}

/// What the system answers about one process: its handle, and the buffer with the name
/// of its main module where it can be opened.
pub struct Visit<'a> {
    pub process: usize,
    pub name: &'a [i8],
}

impl<'a> Visit<'a> {
    /// The process can be opened and its name, in lower case, is `wanted`.
    pub open spec fn bears(self, wanted: Seq<char>) -> bool {
        self.process != 0 && folded_name(self.name@) == wanted
    }
}

impl SearchView {
    /// The search after the process at hand has been visited.
    pub open spec fn visited(self, visit: Visit<'_>) -> SearchView {
        self.after(SearchEvent::Opened { process: visit.process }).after(
            SearchEvent::Named { name: visit.name },
        ).after(SearchEvent::Inspected).after(SearchEvent::Closed)
    }

    /// The search after some processes have been visited.
    pub open spec fn searched(self, visits: Seq<Visit<'_>>) -> SearchView
        decreases visits.len(),
    {
        if visits.len() == 0 {
            self
        } else {
            self.searched(visits.drop_last()).visited(visits.last())
        }
    }

    /// The handle of the process that is open.
    pub open spec fn open_process(self) -> Option<usize> {
        match self.phase {
            SearchPhase::Listing => None,
            SearchPhase::Opening => None,
            SearchPhase::Naming { process } => Some(process),
            SearchPhase::Inspecting { process } => Some(process),
            SearchPhase::Closing { process } => Some(process),
        }
    }

    /// How many calls about the process at hand are left, at most.
    pub open spec fn calls_left(self) -> nat {
        match self.phase {
            SearchPhase::Listing => 0,
            SearchPhase::Opening => 4,
            SearchPhase::Naming { .. } => 3,
            SearchPhase::Inspecting { .. } => 2,
            SearchPhase::Closing { .. } => 1,
        }
    }
}

/// Which of `visits` bear the name `wanted`.
pub open spec fn visited_bearers(visits: Seq<Visit<'_>>, wanted: Seq<char>) -> Seq<bool> {
    Seq::new(visits.len(), |i: int| visits[i].bears(wanted))
}

proof fn lemma_searched(search: SearchView, visits: Seq<Visit<'_>>)
    requires
        search.is_valid(),
        search.phase is Opening,
        search.index + visits.len() <= search.pids.len(),
    ensures
        ({
            let done = search.searched(visits);
            &&& done.is_valid()
            &&& done.phase is Opening
            &&& done.pids == search.pids
            &&& done.wanted == search.wanted
            &&& done.index == search.index + visits.len()
            &&& done.found == last_marked(
                visited_bearers(visits, search.wanted),
                search.pids.skip(search.index),
                search.found,
            )
        }),
    decreases visits.len(),
{
    if visits.len() > 0 {
        let marks = visited_bearers(visits, search.wanted);
        lemma_searched(search, visits.drop_last());
        assert(marks.drop_last() =~= visited_bearers(visits.drop_last(), search.wanted));
    }
}

/// A search that has visited every process that was listed reports the last one to
/// bear the wanted name, and none if there is no such process or its identifier is 0.
pub proof fn law_search_reports_the_last_bearer(
    wanted: Seq<char>,
    slots: &[u32],
    needed: u32,
    visits: Seq<Visit<'_>>,
)
    requires
        listed_count(needed) <= slots@.len(),
        visits.len() == listed_count(needed),
    ensures
        ({
            let listing = SearchView {
                wanted,
                pids: Seq::empty(),
                index: 0,
                found: 0,
                phase: SearchPhase::Listing,
            };
            let listed = listing.after(SearchEvent::Listed { slots, needed });
            let done = listed.searched(visits);
            &&& (forall|i: int| 0 <= i < visits.len() ==> !(#[trigger] visits[i]).bears(wanted))
                ==> done.request() == (SearchAction::Report { found: None })
            &&& forall|i: int| #[trigger]
                is_last_mark(visited_bearers(visits, wanted), i) ==> done.request() == (
                SearchAction::Report {
                    found: if slots@[i] == 0 {
                        None
                    } else {
                        Some(slots@[i])
                    },
                })
        }),
{
    let listing = SearchView {
        wanted,
        pids: Seq::empty(),
        index: 0,
        found: 0,
        phase: SearchPhase::Listing,
    };
    let listed = listing.after(SearchEvent::Listed { slots, needed });
    let marks = visited_bearers(visits, wanted);
    lemma_searched(listed, visits);
    lemma_last_marked(marks, listed.pids.skip(0), 0);
}

/// In whatever order answers come in, a handle that was opened is kept until it has been
/// asked to be closed, and no other is opened before that.
pub proof fn law_open_process_is_kept_until_closed(search: SearchView, event: SearchEvent<'_>)
    ensures
        search.open_process() is Some && search.after(event).open_process()
            != search.open_process() ==> {
            &&& search.request() == (SearchAction::Close { process: search.open_process()->0 })
            &&& search.after(event).open_process() is None
        },
        search.open_process() is None && search.after(event).open_process() is Some ==> {
            &&& search.request() is Open
            &&& event == (SearchEvent::Opened { process: search.after(event).open_process()->0 })
            &&& search.after(event).open_process() != Some(0usize)
        },
{
}

/// Once the processes are listed, an answer brings the end of the search nearer or, where
/// another call was waited for, changes nothing.
pub proof fn law_answers_bring_the_report_nearer(search: SearchView, event: SearchEvent<'_>)
    requires
        search.is_valid(),
        search.phase !is Listing,
    ensures
        ({
            let next = search.after(event);
            ||| next == search
            ||| next.index == search.index && next.calls_left() < search.calls_left()
            ||| next.index == search.index + 1 && next.index <= next.pids.len()
        }),
{
}

/// A process that cannot be opened is passed over.
pub proof fn law_unopened_process_is_passed_over(search: SearchView)
    requires
        search.is_valid(),
        search.phase is Opening,
        search.index < search.pids.len(),
    ensures
        search.after(SearchEvent::Opened { process: 0 }) == (SearchView {
            index: search.index + 1,
            ..search
        }),
{
}

/// A name stands for the characters before the first NUL of its buffer, each taken as a
/// byte, decoded and folded.
pub proof fn law_name_is_what_stands_before_the_nul(buffer: Seq<i8>, n: int)
    requires
        0 <= n < buffer.len(),
        buffer[n] == 0,
        forall|i: int| 0 <= i < n ==> (#[trigger] buffer[i]) != 0,
    ensures
        folded_name(buffer) == lowercase(utf8_lossy(Seq::new(n as nat, |i: int| buffer[i] as u8))),
{
    law_string_ends_at_the_first_nul(buffer, n);
    assert(c_bytes(buffer) =~= Seq::new(n as nat, |i: int| buffer[i] as u8));
}

/// A process bears a name if it could be opened and its main module's name folds to what
/// the wanted name folds to.
pub proof fn law_bearing_is_equality_of_folded_names(
    record: ProcessRecord,
    s: Seq<char>,
    visit: Visit<'_>,
    wanted: Seq<char>,
)
    ensures
        record.module_name is None ==> !record.bears(s),
        record.module_name is Some ==> record.bears(s) == (folded_name(record.module_name->0@)
            == lowercase(s)),
        visit.process == 0 ==> !visit.bears(wanted),
        visit.process != 0 ==> visit.bears(wanted) == (folded_name(visit.name@) == wanted),
{
}

/// An answer is sound where a listing fits its slots and a name holds a NUL.
pub proof fn law_soundness_is_fitting_the_buffers(
    slots: &[u32],
    needed: u32,
    name: &[i8],
    event: SearchEvent<'_>,
    record: ProcessRecord,
)
    ensures
        (SearchEvent::Listed { slots, needed }).is_sound() <==> needed < 4 * slots@.len() + 4,
        (SearchEvent::Named { name }).is_sound() <==> exists|i: int|
            0 <= i < name@.len() && #[trigger] name@[i] == 0,
        event !is Listed && event !is Named ==> event.is_sound(),
        record.module_name is None ==> record.is_sound(),
        record.module_name is Some ==> (record.is_sound() <==> exists|i: int|
            0 <= i < record.module_name->0@.len() && #[trigger] record.module_name->0@[i] == 0),
{
    law_string_ends_at_the_first_nul(name@, 0);
    if record.module_name is Some {
        law_string_ends_at_the_first_nul(record.module_name->0@, 0);
    }
}

/// A listing of `needed` bytes makes the search visit as many of the slots as fit into
/// them, four bytes each, from the first one on and in their order; nothing else of the
/// search changes.
pub proof fn law_listing_is_visited_as_far_as_it_is_filled(
    search: SearchView,
    slots: &[u32],
    needed: u32,
)
    requires
        search.phase is Listing,
        needed < 4 * slots@.len() + 4,
    ensures
        ({
            let listed = search.after(SearchEvent::Listed { slots, needed });
            &&& 4 * listed.pids.len() <= needed < 4 * listed.pids.len() + 4
            &&& forall|i: int|
                0 <= i < listed.pids.len() ==> #[trigger] listed.pids[i] == slots@[i]
            &&& listed.index == 0
            &&& listed.phase is Opening
            &&& listed.wanted == search.wanted
            &&& listed.found == search.found
        }),
{
}

/// The calls of a search, by where it stands: a listing of 256 slots; each process that
/// was listed, in its turn, to be asked about and read; the name of the first of 64
/// modules, in 128 characters; and once every process has had its turn, the one found, 0
/// counting as none.
pub proof fn law_search_asks_for_one_process_after_another(search: SearchView, process: usize)
    ensures
        search.phase is Listing ==> search.request() == (SearchAction::List { slots: 256 }),
        search.phase is Opening && search.index < search.pids.len() ==> search.request() == (
        SearchAction::Open { access: 0x0410, inherit: false, pid: search.pids[search.index] }),
        search.phase is Opening && search.index >= search.pids.len() && search.found != 0
            ==> search.request() == (SearchAction::Report { found: Some(search.found) }),
        search.phase is Opening && search.index >= search.pids.len() && search.found == 0
            ==> search.request() == (SearchAction::Report { found: None }),
        search.phase == (SearchPhase::Naming { process }) ==> search.request() == (
        SearchAction::Name { process, modules: 64, length: 128 }),
        search.phase == (SearchPhase::Inspecting { process }) ==> search.request() == (
        SearchAction::Inspect { process }),
        search.phase == (SearchPhase::Closing { process }) ==> search.request() == (
        SearchAction::Close { process }),
{
}

/// One process of a search, visited: whether or not it can be opened and bears the name,
/// the search comes to the next one with the same list and the same wanted name, and has
/// found this process exactly if it does both.
pub proof fn law_visit_finds_the_process_that_bears_the_name(
    search: SearchView,
    process: usize,
    name: &[i8],
)
    requires
        search.phase is Opening,
        search.index < search.pids.len(),
    ensures
        ({
            let opened = search.after(SearchEvent::Opened { process });
            let named = opened.after(SearchEvent::Named { name });
            let inspected = named.after(SearchEvent::Inspected);
            let closed = inspected.after(SearchEvent::Closed);
            let borne = process != 0 && folded_name(name@) == search.wanted;
            &&& closed.phase is Opening
            &&& closed.index == search.index + 1
            &&& closed.pids == search.pids
            &&& closed.wanted == search.wanted
            &&& borne ==> closed.found == search.pids[search.index]
            &&& !borne ==> closed.found == search.found
            &&& process != 0 ==> opened.phase == (SearchPhase::Naming { process })
            &&& borne ==> named.phase == (SearchPhase::Inspecting { process })
            &&& process != 0 ==> inspected.phase == (SearchPhase::Closing { process })
        }),
{
}

/// What is taken from outside as the comparison of the names has the effect of the
/// comparison itself, and no other than on the process at hand.
pub proof fn law_judging_is_naming(search: SearchView, name: &[i8], process: usize)
    requires
        search.phase == (SearchPhase::Naming { process }),
    ensures
        search.judged(folded_name(name@) == search.wanted) == search.after(
            SearchEvent::Named { name },
        ),
        search.judged(true).found == search.pids[search.index],
        search.judged(true).phase == (SearchPhase::Inspecting { process }),
        search.judged(false).found == search.found,
        search.judged(false).phase == (SearchPhase::Closing { process }),
        search.judged(true).pids == search.pids && search.judged(false).pids == search.pids,
        search.judged(true).index == search.index && search.judged(false).index == search.index,
        search.judged(true).wanted == search.wanted && search.judged(false).wanted
            == search.wanted,
{
}

/// Only an answer to the call that a search waits for moves it, and it is judged only
/// while it waits for a name.
pub proof fn law_unasked_answers_leave_a_search(
    search: SearchView,
    event: SearchEvent<'_>,
    same: bool,
)
    ensures
        search.after(event) != search ==> {
            ||| search.request() is List && event is Listed
            ||| search.request() is Open && event is Opened
            ||| search.request() is Name && event is Named
            ||| search.request() is Inspect && event is Inspected
            ||| search.request() is Close && event is Closed
        },
        search.judged(same) != search ==> search.request() is Name,
{
}

/// A search that lists `needed` bytes and visits every process listed reports the last one
/// that could be opened and bears the wanted name; none where there is no such process, or
/// where its identifier is 0.
pub proof fn law_search_reports_whom_it_visited_last_of_that_name(
    wanted: Seq<char>,
    slots: &[u32],
    needed: u32,
    visits: Seq<Visit<'_>>,
    i: int,
)
    requires
        4 * visits.len() <= needed < 4 * visits.len() + 4,
        visits.len() <= slots@.len(),
        -1 <= i < visits.len(),
        i >= 0 ==> visits[i].process != 0 && folded_name(visits[i].name@) == wanted,
        forall|j: int|
            i < j < visits.len() ==> (#[trigger] visits[j]).process == 0 || folded_name(
                visits[j].name@,
            ) != wanted,
    ensures
        ({
            let listing = SearchView {
                wanted,
                pids: Seq::empty(),
                index: 0,
                found: 0,
                phase: SearchPhase::Listing,
            };
            let done = listing.after(SearchEvent::Listed { slots, needed }).searched(visits);
            &&& i >= 0 && slots@[i] != 0 ==> done.request() == (SearchAction::Report {
                found: Some(slots@[i]),
            })
            &&& i < 0 || slots@[i] == 0 ==> done.request() == (SearchAction::Report {
                found: None,
            })
        }),
{
    law_search_reports_the_last_bearer(wanted, slots, needed, visits);
    let marks = visited_bearers(visits, wanted);
    assert forall|j: int| i < j < visits.len() implies !(#[trigger] marks[j]) by {
        assert(!visits[j].bears(wanted));
    }
    if i >= 0 {
        assert(visits[i].bears(wanted));
        assert(is_last_mark(marks, i));
    } else {
        assert forall|j: int| 0 <= j < visits.len() implies !(#[trigger] visits[j]).bears(
            wanted,
        ) by {
            assert(!marks[j]);
        }
    }
}

} // verus!
