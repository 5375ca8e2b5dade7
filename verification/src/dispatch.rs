//! The parameter dispatcher: route a decoded parameter name through the
//! keyword table and invoke the handler it selects.
//!
//! Dispatch is pure with respect to its input: the routed handler, the
//! returned integer and the single emitted record are functions of the key's
//! character sequence alone, and the key matches byte for byte or not at all.

use crate::keywords::{keyword_entries, lemma_lookup_in_bounds, lookup, KeywordTable};
use crate::records::{LogLevel, LogRecord};
use crate::registry::{handler_message, handler_names, handler_result, Registry, HANDLER_COUNT};
use vstd::prelude::*;
use vstd::string::StringExecFns;
use vstd::utf8::{encode_utf8, encode_utf8_decode_utf8};

verus! {

/// Where the keyword table routes a key: the handler identifier of the last
/// matching declaration, or `None` for a key the table does not hold.
pub open spec fn route(key: Seq<char>) -> Option<usize> {
    lookup(keyword_entries(), key)
}

/// The integer a dispatch returns: the routed handler's result, or zero for
/// an unknown key.
pub open spec fn dispatch_result(key: Seq<char>) -> int {
    match route(key) {
        Some(id) => handler_result(id),
        None => 0,
    }
}

/// The level of the single record a dispatch emits.
pub open spec fn dispatch_level(key: Seq<char>) -> LogLevel {
    match route(key) {
        Some(id) => LogLevel::Info,
        None => LogLevel::Warn,
    }
}

/// The warning body emitted for a key the table does not hold.
pub open spec fn unknown_message(key: Seq<char>) -> Seq<char> {
    "Unknown parameter: "@ + key
}

/// The message of the single record a dispatch emits.
pub open spec fn dispatch_message(key: Seq<char>) -> Seq<char> {
    match route(key) {
        Some(id) => handler_message(id),
        None => unknown_message(key),
    }
}

/// The informational message the boundary logs on entry to the dispatch
/// entry point, carrying the decoded key.
pub open spec fn entry_message(key: Seq<char>) -> Seq<char> {
    "lime Java_com_windcloud_plugin_mac_utils_ModifyMacUtils_modifyParams: param = "@ + key
}

/// The warning body emitted when the host string cannot be decoded to UTF-8.
pub open spec fn decode_failure_message() -> Seq<char> {
    "Couldn't get Rust string from Java string"@
}

/// The dispatcher: the keyword table and the handler registry, built once at
/// library load and immutable afterwards.
pub struct Dispatcher {
    table: KeywordTable,
    registry: Registry,
}

impl Dispatcher {
    /// The table and the registry hold exactly the declared data, and every
    /// declared handler identifier names a registry slot.
    pub closed spec fn wf(&self) -> bool {
        &&& self.table@ == keyword_entries()
        &&& self.table.wf()
        &&& self.registry@ == handler_names()
        &&& self.registry@.len() == HANDLER_COUNT
    }

    /// Build the keyword table and the handler registry.
    pub fn new() -> (d: Dispatcher)
        ensures
            d.wf(),
    {
        Dispatcher { table: KeywordTable::new(), registry: Registry::new() }
    }

    /// The complete keyword surface: every recognized parameter key, in
    /// declaration order, duplicates included.
    pub fn recognized_keys(&self) -> (keys: Vec<String>)
        requires
            self.wf(),
        ensures
            keys@.len() == keyword_entries().len(),
            forall|i: int| 0 <= i < keys@.len() ==> (#[trigger] keys@[i])@ == keyword_entries()[
                i
            ].0,
    {
        self.table.keys()
    }

    /// Dispatch one decoded parameter name: route it through the keyword
    /// table; on a hit invoke the selected handler and hand back its integer
    /// and its single informational record; on a miss hand back zero and one
    /// warning record that carries the key.
    pub fn dispatch(&self, param: &str) -> (r: (i32, LogRecord))
        requires
            self.wf(),
        ensures
            r.0 as int == dispatch_result(param@),
            r.1.level == dispatch_level(param@),
            r.1.message@ == dispatch_message(param@),
    {
        match self.table.find(param) {
            Some(id) => {
                proof {
                    lemma_lookup_in_bounds(keyword_entries(), param@);
                }
                self.registry.invoke(id)
            },
            None => {
                let mut message = String::from_str("Unknown parameter: ");
                message.append(param);
                (0, LogRecord { level: LogLevel::Warn, message })
            },
        }
    }
}

/// The record the boundary logs on entry to the dispatch entry point.
pub fn entry_record(param: &str) -> (r: LogRecord)
    ensures
        r.level == LogLevel::Info,
        r.message@ == entry_message(param@),
{
    let mut message = String::from_str(
        "lime Java_com_windcloud_plugin_mac_utils_ModifyMacUtils_modifyParams: param = ",
    );
    message.append(param);
    LogRecord { level: LogLevel::Info, message }
}

/// The dispatch outcome when the host string cannot be decoded: zero, and one
/// warning record.
pub fn decode_failure() -> (r: (i32, LogRecord))
    ensures
        r.0 == 0,
        r.1.level == LogLevel::Warn,
        r.1.message@ == decode_failure_message(),
{
    (0, LogRecord { level: LogLevel::Warn, message: String::from_str(
        "Couldn't get Rust string from Java string",
    ) })
}

/// Law: routing hits exactly the declared keys: `route` finds a handler if
/// and only if some declaration in the keyword table carries the key, byte
/// for byte.
pub proof fn lemma_route_hits_iff_declared(key: Seq<char>)
    ensures
        route(key) is Some <==> exists|j: int|
            0 <= j < keyword_entries().len() && (#[trigger] keyword_entries()[j]).0 == key,
{
    crate::keywords::lemma_lookup_none_iff_no_match(keyword_entries(), key);
}

/// Law: a key the table holds routes to its handler.  The dispatcher returns
/// that handler's result, and the single emitted record is that handler's own
/// informational record -- the handler is invoked exactly once per call.
pub proof fn lemma_known_key_runs_its_handler(key: Seq<char>, id: usize)
    requires
        route(key) == Some(id),
    ensures
        dispatch_result(key) == handler_result(id),
        dispatch_level(key) == LogLevel::Info,
        dispatch_message(key) == handler_message(id),
{
}

/// Law: a key the table does not hold yields zero and exactly one warning
/// record whose body ends with the key itself.
pub proof fn lemma_unknown_key_warns(key: Seq<char>)
    requires
        route(key) is None,
    ensures
        dispatch_result(key) == 0,
        dispatch_level(key) == LogLevel::Warn,
        dispatch_message(key) == unknown_message(key),
        dispatch_message(key).subrange(
            dispatch_message(key).len() - key.len(),
            dispatch_message(key).len() as int,
        ) == key,
{
    let m = dispatch_message(key);
    assert(m.subrange(m.len() - key.len(), m.len() as int) =~= key);
}

/// Law: dispatch is decided by the key's bytes alone.  Two parameters with
/// the same UTF-8 encoding are the same character sequence and dispatch
/// identically: same route, same integer, same record.
pub proof fn lemma_dispatch_matches_byte_for_byte(k1: Seq<char>, k2: Seq<char>)
    requires
        encode_utf8(k1) == encode_utf8(k2),
    ensures
        k1 == k2,
        dispatch_result(k1) == dispatch_result(k2),
        dispatch_level(k1) == dispatch_level(k2),
        dispatch_message(k1) == dispatch_message(k2),
{
    encode_utf8_decode_utf8(k1);
    encode_utf8_decode_utf8(k2);
}

/// Law: dispatch is repeatable.  Any two calls on the same key are bound to
/// the same integer, the same level and the same message, so N calls yield N
/// identical results and N identical records.
pub proof fn lemma_dispatch_repeatable(
    key: Seq<char>,
    r1: (int, LogLevel, Seq<char>),
    r2: (int, LogLevel, Seq<char>),
)
    requires
        r1 == (dispatch_result(key), dispatch_level(key), dispatch_message(key)),
        r2 == (dispatch_result(key), dispatch_level(key), dispatch_message(key)),
    ensures
        r1 == r2,
{
}

} // verus!
