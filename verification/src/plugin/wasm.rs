//! The WebAssembly sandbox that runs an installed decoder: compiling and
//! instantiating its module and calling its ABI exports through `wasmi`,
//! with every decision taken by the library.
use vstd::prelude::*;
use vstd::string::StringExecFns;

use crate::adapter::AdapterDescriptor;
use crate::config::json::{json_document, parse_json_document, JsonValue};
use crate::plugin::manifest::GamePluginManifest;
use crate::plugin::runtime::{bounded_message, decode_result, fixed_error, non_negative, wasm_error, WasmPluginError};
use crate::plugin::sandbox::{
    abi_input_len, abi_timestamp, check_abi_version, check_datagram_len, check_input_fits,
    check_memory_exported, check_module_request, check_no_imports, check_output_fits,
    module_request_verdict, plugin_descriptor, shape_fault_text, shape_visit, validate_json_shape,
    FUEL_PER_DECODE, MAX_LINEAR_MEMORY_BYTES, MAX_TABLE_ELEMENTS,
};
use crate::telemetry::model::MonotonicTimestamp;

verus! {

#[verifier::external_type_specification]
#[verifier::external_body]
pub struct ExWasmEngine(wasmi::Engine);

#[verifier::external_type_specification]
#[verifier::external_body]
pub struct ExWasmModule(wasmi::Module);

#[verifier::external_type_specification]
#[verifier::external_body]
pub struct ExWasmStoreLimits(wasmi::StoreLimits);

#[verifier::external_type_specification]
#[verifier::external_body]
#[verifier::reject_recursive_types(T)]
pub struct ExWasmStore<T>(wasmi::Store<T>);

#[verifier::external_type_specification]
#[verifier::external_body]
pub struct ExWasmInstance(wasmi::Instance);

#[verifier::external_type_specification]
#[verifier::external_body]
pub struct ExWasmMemory(wasmi::Memory);

#[verifier::external_type_specification]
#[verifier::external_body]
#[verifier::reject_recursive_types(Params)]
#[verifier::reject_recursive_types(Results)]
pub struct ExWasmTypedFunc<Params, Results>(wasmi::TypedFunc<Params, Results>);

/// Whether `wasmi::Module::new`, on an engine configured to meter fuel,
/// accepts `bytes` as a WebAssembly module (binary, or text format).
pub uninterp spec fn wasm_module_valid(bytes: Seq<u8>) -> bool;

/// Whether the module that `bytes` encode declares any import.
pub uninterp spec fn wasm_module_imports(bytes: Seq<u8>) -> bool;

/// Whether the module that `bytes` encode exports a linear memory named
/// `memory`.
pub uninterp spec fn wasm_module_exports_memory(bytes: Seq<u8>) -> bool;

/// A module compiled by its own fuel-metering engine, with the bytes it was
/// compiled from.
pub struct CompiledModule {
    engine: wasmi::Engine,
    module: wasmi::Module,
    source: Ghost<Seq<u8>>,
}

impl CompiledModule {
    /// The bytes the module was compiled from.
    pub closed spec fn source(&self) -> Seq<u8> {
        self.source@
    }
}

/// An instantiated module and the store that owns it, with an identity that
/// only the memory and exports taken from it share.
pub struct GuestInstance {
    store: wasmi::Store<wasmi::StoreLimits>,
    instance: wasmi::Instance,
    source: Ghost<Seq<u8>>,
    id: Ghost<int>,
}

impl GuestInstance {
    /// The bytes of the module that was instantiated.
    pub closed spec fn source(&self) -> Seq<u8> {
        self.source@
    }

    /// The instance's identity.
    pub closed spec fn id(&self) -> int {
        self.id@
    }
}

/// The linear memory of one guest instance.
pub struct GuestMemory {
    memory: wasmi::Memory,
    owner: Ghost<int>,
}

impl GuestMemory {
    /// The identity of the instance the memory belongs to.
    pub closed spec fn owner(&self) -> int {
        self.owner@
    }
}

/// A `() -> i32` export of one guest instance.
pub struct GuestQuery {
    function: wasmi::TypedFunc<(), i32>,
    owner: Ghost<int>,
}

impl GuestQuery {
    /// The identity of the instance the export belongs to.
    pub closed spec fn owner(&self) -> int {
        self.owner@
    }
}

/// The `(i32, i64) -> i32` decode export of one guest instance.
pub struct GuestDecode {
    function: wasmi::TypedFunc<(i32, i64), i32>,
    owner: Ghost<int>,
}

impl GuestDecode {
    /// The identity of the instance the export belongs to.
    pub closed spec fn owner(&self) -> int {
        self.owner@
    }
}

/// Compiles `bytes` with `wasmi::Module::new` on a new engine whose
/// configuration (`wasmi::Config`) meters fuel; a failure gives the error's
/// `Display` text. Success is named: it depends on the bytes alone.
#[verifier::external_body]
fn compile_wasm_module(bytes: &[u8]) -> (r: Result<CompiledModule, String>)
    ensures
        r is Ok <==> wasm_module_valid(bytes@),
        r matches Ok(m) ==> m.source() == bytes@,
{
    let mut config = wasmi::Config::default();
    config.consume_fuel(true);
    let engine = wasmi::Engine::new(&config);
    match wasmi::Module::new(&engine, bytes) {
        Ok(module) => Ok(CompiledModule { engine, module, source: Ghost(bytes@) }),
        Err(error) => Err(error.to_string()),
    }
}

/// Whether the compiled module declares an import, by `Module::imports`.
#[verifier::external_body]
fn module_has_imports(module: &CompiledModule) -> (b: bool)
    ensures
        b == wasm_module_imports(module.source()),
{
    module.module.imports().next().is_some()
}

/// Instantiates the module with `Linker::instantiate_and_start` in a new
/// `wasmi::Store` of the module's own engine, whose `StoreLimits` cap linear
/// memory at `memory_bytes` and tables at `table_elements` (one instance,
/// memory and table), and which starts with `fuel` (setting it cannot fail:
/// the engine meters fuel). A failure gives the error's `Display` text;
/// whether the start function traps or runs out of fuel is not stated.
#[verifier::external_body]
fn instantiate_module(
    module: CompiledModule,
    memory_bytes: usize,
    table_elements: usize,
    fuel: u64,
) -> (r: Result<GuestInstance, String>)
    ensures
        r matches Ok(g) ==> g.source() == module.source(),
{
    let limits = wasmi::StoreLimitsBuilder::new().memory_size(memory_bytes).table_elements(table_elements)
        .instances(1).memories(1).tables(1).trap_on_grow_failure(true).build();
    let mut store = wasmi::Store::new(&module.engine, limits);
    store.limiter(|limits| limits);
    store.set_fuel(fuel).map_err(|error| error.to_string())?;
    let linker = wasmi::Linker::<wasmi::StoreLimits>::new(&module.engine);
    match linker.instantiate_and_start(&mut store, &module.module) {
        Ok(instance) => Ok(GuestInstance { store, instance, source: module.source, id: Ghost(arbitrary()) }),
        Err(error) => Err(error.to_string()),
    }
}

/// The instance's export `memory`, by `Instance::get_memory`.
#[verifier::external_body]
fn exported_memory(guest: &GuestInstance) -> (r: Option<GuestMemory>)
    ensures
        r is Some <==> wasm_module_exports_memory(guest.source()),
        r matches Some(m) ==> m.owner() == guest.id(),
{
    match guest.instance.get_memory(&guest.store, "memory") {
        Some(memory) => Some(GuestMemory { memory, owner: guest.id }),
        None => None,
    }
}

/// The instance's export `name` typed as `() -> i32`, by
/// `Instance::get_typed_func`; whether the module has it is not stated.
#[verifier::external_body]
fn query_export(guest: &GuestInstance, name: &str) -> (r: Option<GuestQuery>)
    ensures
        r matches Some(f) ==> f.owner() == guest.id(),
{
    match guest.instance.get_typed_func::<(), i32>(&guest.store, name) {
        Ok(function) => Some(GuestQuery { function, owner: guest.id }),
        Err(_) => None,
    }
}

/// The instance's export `name` typed as `(i32, i64) -> i32`, by
/// `Instance::get_typed_func`; whether the module has it is not stated.
#[verifier::external_body]
fn decode_export(guest: &GuestInstance, name: &str) -> (r: Option<GuestDecode>)
    ensures
        r matches Some(f) ==> f.owner() == guest.id(),
{
    match guest.instance.get_typed_func::<(i32, i64), i32>(&guest.store, name) {
        Ok(function) => Some(GuestDecode { function, owner: guest.id }),
        Err(_) => None,
    }
}

/// Calls a `() -> i32` export with `TypedFunc::call`; a trap gives the
/// error's `Display` text. What the guest returns is not stated.
#[verifier::external_body]
fn call_query(guest: &mut GuestInstance, function: &GuestQuery) -> (r: Result<i32, String>)
    requires
        function.owner() == old(guest).id(),
    ensures
        final(guest).source() == old(guest).source(),
        final(guest).id() == old(guest).id(),
{
    function.function.call(&mut guest.store, ()).map_err(|error| error.to_string())
}

/// Calls the decode export with `TypedFunc::call`; a trap, running out of
/// fuel included, gives the error's `Display` text. What the guest returns
/// is not stated.
#[verifier::external_body]
fn call_decode(
    guest: &mut GuestInstance,
    function: &GuestDecode,
    input_len: i32,
    captured_at: i64,
) -> (r: Result<i32, String>)
    requires
        function.owner() == old(guest).id(),
    ensures
        final(guest).source() == old(guest).source(),
        final(guest).id() == old(guest).id(),
{
    function.function.call(&mut guest.store, (input_len, captured_at)).map_err(|error| error.to_string())
}

/// Refuels the store with `Store::set_fuel`; a failure gives the error's
/// `Display` text.
#[verifier::external_body]
fn refuel(guest: &mut GuestInstance, fuel: u64) -> (r: Result<(), String>)
    ensures
        final(guest).source() == old(guest).source(),
        final(guest).id() == old(guest).id(),
{
    guest.store.set_fuel(fuel).map_err(|error| error.to_string())
}

/// Copies `bytes` into the guest memory at `offset` with `Memory::write`,
/// returning whether they fit.
#[verifier::external_body]
fn write_guest_memory(guest: &mut GuestInstance, memory: &GuestMemory, offset: usize, bytes: &[u8]) -> (ok: bool)
    requires
        memory.owner() == old(guest).id(),
    ensures
        final(guest).source() == old(guest).source(),
        final(guest).id() == old(guest).id(),
{
    memory.memory.write(&mut guest.store, offset, bytes).is_ok()
}

/// Copies `len` bytes of guest memory from `offset` with `Memory::read`, or
/// `None` when they lie outside the memory.
#[verifier::external_body]
fn read_guest_memory(guest: &GuestInstance, memory: &GuestMemory, offset: usize, len: usize) -> (r: Option<Vec<u8>>)
    requires
        memory.owner() == guest.id(),
    ensures
        r matches Some(bytes) ==> bytes@.len() == len,
{
    let mut bytes = vec![0_u8; len];
    match memory.memory.read(&guest.store, offset, &mut bytes) {
        Ok(()) => Some(bytes),
        Err(_) => None,
    }
}

/// A loaded decoder: its descriptor and ingress limit, its instance with
/// the store that owns it, its linear memory and its ABI exports.
pub struct WasmSandbox {
    descriptor: AdapterDescriptor,
    max_datagram_bytes: usize,
    guest: GuestInstance,
    memory: GuestMemory,
    exports: AbiExports,
}

impl WasmSandbox {
    /// The plugin's adapter descriptor.
    pub closed spec fn spec_descriptor(&self) -> AdapterDescriptor {
        self.descriptor
    }

    /// The largest datagram the plugin accepts.
    pub closed spec fn max_datagram(&self) -> usize {
        self.max_datagram_bytes
    }

    /// The bytes of the module the sandbox runs.
    pub closed spec fn source(&self) -> Seq<u8> {
        self.guest.source()
    }

    /// Whether the memory and exports belong to the sandbox's own instance.
    pub closed spec fn wf(&self) -> bool {
        &&& self.memory.owner() == self.guest.id()
        &&& self.exports.owned_by(self.guest.id())
    }

    /// Returns the plugin's stable identity, protocol and capabilities.
    pub fn descriptor(&self) -> (d: &AdapterDescriptor)
        ensures
            *d == self.spec_descriptor(),
    {
        &self.descriptor
    }
}

/// The diagnostic `prefix` followed by what `wasmi` reported.
fn reported(prefix: &str, detail: String) -> (e: WasmPluginError)
    ensures
        bounded_message(prefix@ + detail@, e.text()),
{
    let mut text = String::from_str(prefix);
    text.append(detail.as_str());
    wasm_error(text)
}

/// The diagnostic for an ABI export that is missing or mistyped.
fn export_error(name: &str) -> (e: WasmPluginError)
    ensures
        bounded_message("WASM decoder export "@ + name@ + " has the wrong signature"@, e.text()),
{
    let mut text = String::from_str("WASM decoder export ");
    text.append(name);
    text.append(" has the wrong signature");
    wasm_error(text)
}

/// The `() -> i32` export `name`, or the diagnostic that it is missing.
fn required_query(guest: &GuestInstance, name: &str) -> (r: Result<GuestQuery, WasmPluginError>)
    ensures
        r matches Ok(f) ==> f.owner() == guest.id(),
        r matches Err(e) ==> export_failure(e),
{
    match query_export(guest, name) {
        Some(function) => Ok(function),
        None => {
            let e = export_error(name);
            assert(bounded_message("WASM decoder export "@ + name@ + " has the wrong signature"@, e.text()));
            Err(e)
        },
    }
}

/// Whether `e` reports an ABI export that is missing or mistyped.
pub open spec fn export_failure(e: WasmPluginError) -> bool {
    exists|name: Seq<char>| #[trigger] bounded_message("WASM decoder export "@ + name + " has the wrong signature"@, e.text())
}

/// Whether `e` reports a trap of the guest, running out of fuel included.
pub open spec fn trap_failure(e: WasmPluginError) -> bool {
    exists|t: Seq<char>| #[trigger] bounded_message("WASM decoder trapped: "@ + t, e.text())
}

/// The diagnostic for a trap that `wasmi` reported as `detail`.
fn trapped(detail: String) -> (e: WasmPluginError)
    ensures
        trap_failure(e),
{
    let e = reported("WASM decoder trapped: ", detail);
    assert(bounded_message("WASM decoder trapped: "@ + detail@, e.text()));
    e
}

/// The ABI exports of a decoder.
struct AbiExports {
    abi_version: GuestQuery,
    input_ptr: GuestQuery,
    input_capacity: GuestQuery,
    output_ptr: GuestQuery,
    output_capacity: GuestQuery,
    decode: GuestDecode,
}

impl AbiExports {
    /// Whether every export belongs to the instance `id`.
    spec fn owned_by(&self, id: int) -> bool {
        &&& self.abi_version.owner() == id
        &&& self.input_ptr.owner() == id
        &&& self.input_capacity.owner() == id
        &&& self.output_ptr.owner() == id
        &&& self.output_capacity.owner() == id
        &&& self.decode.owner() == id
    }
}

/// Looks the ABI exports up in their order; the first that is missing or
/// mistyped is reported.
fn bind_exports(guest: &GuestInstance) -> (r: Result<AbiExports, WasmPluginError>)
    ensures
        r matches Ok(x) ==> x.owned_by(guest.id()),
        r matches Err(e) ==> export_failure(e),
{
    let abi_version = required_query(guest, "osd_plugin_abi_version")?;
    let input_ptr = required_query(guest, "osd_input_ptr")?;
    let input_capacity = required_query(guest, "osd_input_capacity")?;
    let output_ptr = required_query(guest, "osd_output_ptr")?;
    let output_capacity = required_query(guest, "osd_output_capacity")?;
    let decode = match decode_export(guest, "osd_decode") {
        Some(function) => function,
        None => {
            let e = export_error("osd_decode");
            assert(bounded_message("WASM decoder export "@ + "osd_decode"@ + " has the wrong signature"@, e.text()));
            return Err(e);
        },
    };
    Ok(AbiExports { abi_version, input_ptr, input_capacity, output_ptr, output_capacity, decode })
}

/// Whether `e` is a failure that only the guest module's own behaviour can
/// cause once it compiled without imports: instantiation, a missing memory or
/// export, a trap, an unsupported ABI version, or an invalid plugin id.
pub open spec fn guest_load_failure(m: GamePluginManifest, bytes: Seq<u8>, e: WasmPluginError) -> bool {
    ||| exists|t: Seq<char>| #[trigger] bounded_message("module instantiation failed: "@ + t, e.text())
    ||| (!wasm_module_exports_memory(bytes) && e.text() == "WASM decoder does not export memory"@)
    ||| export_failure(e)
    ||| trap_failure(e)
    ||| exists|v: int| #[trigger] bounded_message("WASM decoder ABI "@ + crate::plugin::sandbox::signed_decimal(v) + " is unsupported; expected 1"@, e.text())
    ||| bounded_message("invalid adapter id: "@ + crate::text::debug_quoted(m.id@), e.text())
}

/// Whether `s` is the sandbox of manifest `m` running the module `bytes`.
pub open spec fn sandbox_of(m: GamePluginManifest, bytes: Seq<u8>, s: WasmSandbox) -> bool {
    &&& wasm_module_exports_memory(bytes)
    &&& s.source() == bytes
    &&& s.spec_descriptor().id.text() == m.id@
    &&& s.spec_descriptor().display_name@ == m.name@
    &&& s.spec_descriptor().protocol_version@ == m.protocol.version@
    &&& s.spec_descriptor().capabilities.fields().to_set() == m.capabilities@.to_set()
    &&& s.max_datagram() == m.ingress.max_datagram_bytes
    &&& s.wf()
}

/// Instantiates a compiled module under the sandbox limits and binds its
/// memory and ABI exports, then checks its ABI version and the plugin id.
fn start_guest(manifest: &GamePluginManifest, module: CompiledModule) -> (r: Result<WasmSandbox, WasmPluginError>)
    ensures
        match r {
            Ok(s) => sandbox_of(*manifest, module.source(), s),
            Err(e) => guest_load_failure(*manifest, module.source(), e),
        },
{
    let ghost bytes = module.source();
    let mut guest = match instantiate_module(module, MAX_LINEAR_MEMORY_BYTES, MAX_TABLE_ELEMENTS, FUEL_PER_DECODE) {
        Ok(guest) => guest,
        Err(detail) => {
            let e = reported("module instantiation failed: ", detail);
            assert(bounded_message("module instantiation failed: "@ + detail@, e.text()));
            return Err(e);
        },
    };
    let exported = exported_memory(&guest);
    if let Err(e) = check_memory_exported(exported.is_some()) {
        return Err(e);
    }
    let memory = match exported {
        Some(memory) => memory,
        None => return Err(fixed_error("WASM decoder does not export memory")),
    };
    let exports = match bind_exports(&guest) {
        Ok(exports) => exports,
        Err(e) => return Err(e),
    };
    let version = match call_query(&mut guest, &exports.abi_version) {
        Ok(version) => version,
        Err(detail) => return Err(trapped(detail)),
    };
    if let Err(e) = check_abi_version(version) {
        assert(bounded_message(
            "WASM decoder ABI "@ + crate::plugin::sandbox::signed_decimal(version as int) + " is unsupported; expected 1"@,
            e.text(),
        ));
        return Err(e);
    }
    let (descriptor, max_datagram_bytes) = match plugin_descriptor(manifest) {
        Ok(pair) => pair,
        Err(e) => return Err(e),
    };
    Ok(WasmSandbox { descriptor, max_datagram_bytes, guest, memory, exports })
}

/// Why loading `bytes` for manifest `m` fails with `e`: the manifest and
/// size rules first, then compilation, then imports; after those the failure
/// comes from the guest's own behaviour.
pub open spec fn load_failure(m: GamePluginManifest, bytes: Seq<u8>, e: WasmPluginError) -> bool {
    if !module_request_verdict(m, bytes.len(), Ok(())) {
        module_request_verdict(m, bytes.len(), Err(e))
    } else if !wasm_module_valid(bytes) {
        exists|t: Seq<char>| #[trigger] bounded_message("module validation failed: "@ + t, e.text())
    } else if wasm_module_imports(bytes) {
        e.text() == "WASM decoder must not import Host or WASI functions"@
    } else {
        guest_load_failure(m, bytes, e)
    }
}

/// Loads and validates a sandboxed decoder: the manifest and module size
/// are checked, the module is compiled and must import nothing, then it is
/// instantiated under the memory, table and fuel limits, must export its
/// memory and the ABI functions, and must report ABI version 1.
pub fn load_wasm_plugin(manifest: &GamePluginManifest, module_bytes: &[u8]) -> (r: Result<WasmSandbox, WasmPluginError>)
    ensures
        match r {
            Ok(s) => {
                &&& module_request_verdict(*manifest, module_bytes@.len(), Ok(()))
                &&& wasm_module_valid(module_bytes@)
                &&& !wasm_module_imports(module_bytes@)
                &&& sandbox_of(*manifest, module_bytes@, s)
            },
            Err(e) => load_failure(*manifest, module_bytes@, e),
        },
{
    let request = check_module_request(manifest, module_bytes.len());
    if let Err(e) = request {
        return Err(e);
    }
    let module = match compile_wasm_module(module_bytes) {
        Ok(module) => module,
        Err(detail) => {
            let e = reported("module validation failed: ", detail);
            assert(bounded_message("module validation failed: "@ + detail@, e.text()));
            return Err(e);
        },
    };
    if let Err(e) = check_no_imports(module_has_imports(&module)) {
        return Err(e);
    }
    start_guest(manifest, module)
}

/// What a decoder response gives once parsed (`parsed`, the JSON document
/// or the parser's message): a parse failure and a broken shape bound are
/// refused with their diagnostics, any other document is the response.
pub open spec fn guest_output_verdict(parsed: Result<JsonValue, Seq<char>>, r: Result<JsonValue, WasmPluginError>) -> bool {
    match parsed {
        Err(m) => r matches Err(e) && bounded_message("decoder output JSON is invalid: "@ + m, e.text()),
        Ok(v) => match shape_visit(v, 1, 0) {
            Ok(_) => r == Ok::<JsonValue, WasmPluginError>(v),
            Err(f) => r matches Err(e) && e.text() == shape_fault_text(f),
        },
    }
}

/// A parse outcome with the parser's message taken as text.
pub open spec fn parsed_view(parsed: Result<JsonValue, String>) -> Result<JsonValue, Seq<char>> {
    match parsed {
        Ok(v) => Ok(v),
        Err(m) => Err(m@),
    }
}

/// Judges a parsed decoder response: the parser's failure, or the document
/// when it keeps the shape bounds.
pub fn check_parsed_output(parsed: Result<JsonValue, String>) -> (r: Result<JsonValue, WasmPluginError>)
    ensures
        guest_output_verdict(parsed_view(parsed), r),
{
    match parsed {
        Err(message) => {
            let e = reported("decoder output JSON is invalid: ", message);
            Err(e)
        },
        Ok(value) => match validate_json_shape(&value) {
            Ok(()) => Ok(value),
            Err(e) => Err(e),
        },
    }
}

/// Parses the bytes a decoder wrote to its output buffer as JSON and checks
/// the document's shape bounds.
pub fn check_guest_output(encoded: &[u8]) -> (r: Result<JsonValue, WasmPluginError>)
    ensures
        guest_output_verdict(json_document(encoded@), r),
{
    let parsed = parse_json_document(encoded);
    check_parsed_output(parsed)
}

/// Whether `v` is a decoder response that the checks let through: the JSON
/// document of some output bytes, within the shape bounds.
pub open spec fn guest_response(v: JsonValue) -> bool {
    &&& exists|bytes: Seq<u8>| #[trigger] json_document(bytes) == Ok::<JsonValue, Seq<char>>(v)
    &&& shape_visit(v, 1, 0) is Ok
}

/// Calls a `() -> i32` export that reports a buffer pointer or capacity,
/// which must not be negative.
fn buffer_field(guest: &mut GuestInstance, function: &GuestQuery, field: &str) -> (r: Result<usize, WasmPluginError>)
    requires
        function.owner() == old(guest).id(),
    ensures
        final(guest).source() == old(guest).source(),
        final(guest).id() == old(guest).id(),
{
    let raw = match call_query(guest, function) {
        Ok(raw) => raw,
        Err(detail) => return Err(trapped(detail)),
    };
    non_negative(raw, field)
}

/// Runs the decoder on one datagram: the datagram must fit the ingress limit
/// and the guest's input buffer, the guest is refuelled and called with the
/// datagram's length and capture time, and its return value and output
/// buffer are checked before the response is parsed and bounded.
pub fn decode_with_guest(sandbox: &mut WasmSandbox, datagram: &[u8], received_at: MonotonicTimestamp) -> (r: Result<JsonValue, WasmPluginError>)
    requires
        old(sandbox).wf(),
    ensures
        final(sandbox).wf(),
        final(sandbox).spec_descriptor() == old(sandbox).spec_descriptor(),
        final(sandbox).max_datagram() == old(sandbox).max_datagram(),
        final(sandbox).source() == old(sandbox).source(),
        datagram@.len() > old(sandbox).max_datagram() ==> (r matches Err(e) && e.text()
            == "datagram exceeds the plugin ingress limit"@),
        r matches Ok(v) ==> {
            &&& datagram@.len() <= old(sandbox).max_datagram()
            &&& datagram@.len() <= i32::MAX
            &&& received_at.micros() <= i64::MAX
            &&& guest_response(v)
        },
{
    if let Err(e) = check_datagram_len(datagram.len(), sandbox.max_datagram_bytes) {
        return Err(e);
    }
    if let Err(detail) = refuel(&mut sandbox.guest, FUEL_PER_DECODE) {
        return Err(wasm_error(detail));
    }
    let input_ptr = buffer_field(&mut sandbox.guest, &sandbox.exports.input_ptr, "input pointer")?;
    let input_capacity = buffer_field(&mut sandbox.guest, &sandbox.exports.input_capacity, "input capacity")?;
    if let Err(e) = check_input_fits(datagram.len(), input_capacity) {
        return Err(e);
    }
    if !write_guest_memory(&mut sandbox.guest, &sandbox.memory, input_ptr, datagram) {
        return Err(fixed_error("guest input buffer is outside linear memory"));
    }
    let input_len = match abi_input_len(datagram.len()) {
        Ok(len) => len,
        Err(e) => return Err(e),
    };
    let captured_at = match abi_timestamp(received_at) {
        Ok(micros) => micros,
        Err(e) => return Err(e),
    };
    let result = match call_decode(&mut sandbox.guest, &sandbox.exports.decode, input_len, captured_at) {
        Ok(result) => result,
        Err(detail) => return Err(trapped(detail)),
    };
    let output_len = decode_result(result)?;
    let output_ptr = buffer_field(&mut sandbox.guest, &sandbox.exports.output_ptr, "output pointer")?;
    let output_capacity = buffer_field(&mut sandbox.guest, &sandbox.exports.output_capacity, "output capacity")?;
    if let Err(e) = check_output_fits(output_len, output_capacity) {
        return Err(e);
    }
    let encoded = match read_guest_memory(&sandbox.guest, &sandbox.memory, output_ptr, output_len) {
        Some(bytes) => bytes,
        None => return Err(fixed_error("guest output buffer is outside linear memory")),
    };
    let r = check_guest_output(encoded.as_slice());
    if let Ok(v) = &r {
        assert(json_document(encoded@) == Ok::<JsonValue, Seq<char>>(*v));
    }
    r
}

} // verus!
