//! The static chapters of the handbook and the fixed files of the generated
//! bindings. Chapters that show code examples take the example sources as
//! arguments and quote each one, trimmed.
use vstd::prelude::*;
use crate::bindings::INVOKE_PROTOCOL_VERSION;
use crate::strings::{append_parts, concat_parts, concat_seq, push_str, str_views};
use crate::text::{trim_seq, trim_str};

verus! {

/// The example sources that chapters quote.
#[derive(Debug, Clone)]
pub struct DocSnippets {
    pub top_level_import: String,
    pub simple_equation_solve: String,
    pub typed_unit_input: String,
    pub qty_macro_input: String,
    pub runtime_string_input: String,
    pub fluid_property_lookup: String,
    pub fluid_state_constructors: String,
    pub fluid_saturation_metadata: String,
    pub material_property_lookup: String,
    pub context_solve: String,
    pub family_variant_access: String,
    pub device_pipe_loss_fixed: String,
    pub device_pipe_loss_colebrook_direct: String,
    pub device_pipe_loss_colebrook_fluid: String,
}

/// The text of a list of parts, concatenated.
pub open spec fn parts_text(parts: Seq<&'static str>) -> Seq<char> {
    concat_seq(str_views(parts))
}

/// The `pyproject.toml` of the native Python package.
pub const PYTHON_BINDING_PYPROJECT: &'static str = r#"[build-system]
requires = ["maturin>=1.7,<2.0"]
build-backend = "maturin"

[project]
name = "engpy-native"
version = "0.1.0"
description = "Native in-process Python bindings for the eng Rust library"
readme = "README.md"
requires-python = ">=3.9"

[tool.maturin]
manifest-path = "../../../crates/eng-pyext/Cargo.toml"
module-name = "engpy_native"
"#;

/// Renders the `pyproject.toml` of the native Python package.
pub fn render_python_binding_pyproject() -> (res: String)
    ensures
        res@ == PYTHON_BINDING_PYPROJECT@,
{
    String::from_str(PYTHON_BINDING_PYPROJECT)
}

/// The README of the generated Python bindings.
pub const PYTHON_BINDING_README: &'static str = r#"# Generated Python Bindings

This directory is generated by `eng::docs`.

## Native Runtime (Preferred)

1. Create/activate a Python virtual environment.
2. Install build tooling: `pip install maturin`.
3. Run `maturin develop --manifest-path ../../../crates/eng-pyext/Cargo.toml`.
4. Verify:
   - `import engpy_native`
   - `import engpy._runtime as rt; rt.runtime_mode()` returns `"native"`.

Helper scripts:
- `scripts/setup-native-bindings.ps1`
- `scripts/setup-native-bindings.sh`
- `scripts/verify-native-bindings.ps1`
- `scripts/verify-native-bindings.sh`

## Fallback Runtime

If `engpy_native` is not importable, runtime falls back to `eng worker`.
Use `ENGPY_RUNTIME=native|worker` to force runtime selection.
"#;

/// Renders the README of the generated Python bindings.
pub fn render_python_binding_readme() -> (res: String)
    ensures
        res@ == PYTHON_BINDING_README@,
{
    String::from_str(PYTHON_BINDING_README)
}

/// The Python runtime module that talks to the native extension or the worker, before the protocol version.
pub const PYTHON_RUNTIME_HEAD: &'static str = r#"import json
import os
import subprocess
import threading
import uuid
import atexit
import builtins

PROTOCOL_VERSION = ""#;

/// The rest of the runtime module, after the protocol version.
pub const PYTHON_RUNTIME_TAIL: &'static str = r#""


class EngBindingError(RuntimeError):
    def __init__(self, code, message, op=None, field=None, request_id=None, detail=None):
        super().__init__(f"[{code}] {message}")
        self.code = code
        self.message = message
        self.op = op
        self.field = field
        self.request_id = request_id
        self.detail = detail


def _load_native_runtime():
    try:
        import engpy_native  # type: ignore
        return engpy_native
    except Exception:
        return None


_NATIVE_RUNTIME = _load_native_runtime()


class _NativeClient:
    def __init__(self, native_mod):
        self._native = native_mod
        self._request_count = 0
        self._last_failure = None
        self._last_request_id = None

    def _stop(self):
        # No-op for in-process runtime.
        return None

    def worker_pid(self):
        return None

    def stats(self):
        return {
            "runtime_mode": "native",
            "worker_pid": None,
            "startup_count": 0,
            "restart_count": 0,
            "request_count": self._request_count,
            "last_reused": True,
            "last_request_id": self._last_request_id,
            "last_failure": self._last_failure,
        }

    def invoke(self, op: str, args: dict, request_id=None):
        req_id = request_id or str(uuid.uuid4())
        req = {"protocol_version": PROTOCOL_VERSION, "op": op, "request_id": req_id, "args": args}
        self._request_count += 1
        self._last_request_id = req_id
        try:
            raw = self._native.invoke_json(json.dumps(req))
            data = json.loads(raw)
            self._last_failure = None
            return _validate_response(op, req_id, data)
        except EngBindingError:
            raise
        except Exception as exc:
            self._last_failure = str(exc)
            raise EngBindingError(
                "invoke_native_failed",
                f"native invoke failed: {exc}",
                op=op,
                request_id=req_id,
            )


class _WorkerClient:
    def __init__(self):
        self._lock = threading.RLock()
        self._process = None
        self._startup_count = 0
        self._restart_count = 0
        self._request_count = 0
        self._last_failure = None
        self._last_reused = False
        self._last_request_id = None

    def _resolve_worker_bin(self):
        return os.environ.get("ENG_WORKER_BIN") or os.environ.get("ENG_BIN") or "eng"

    def _popen_kwargs(self):
        kwargs = {
            "stdin": subprocess.PIPE,
            "stdout": subprocess.PIPE,
            # keep stderr drained to avoid blocking on pipe saturation
            "stderr": subprocess.DEVNULL,
            "text": True,
            "bufsize": 1,
            "encoding": "utf-8",
            "errors": "replace",
        }
        if os.name == "nt":
            # Prevent flashing/visible command windows in Excel/xlOil usage.
            creationflags = getattr(subprocess, "CREATE_NO_WINDOW", 0)
            kwargs["creationflags"] = creationflags
            si = subprocess.STARTUPINFO()
            si.dwFlags |= subprocess.STARTF_USESHOWWINDOW
            kwargs["startupinfo"] = si
        return kwargs

    def _spawn(self):
        worker_bin = self._resolve_worker_bin()
        self._process = subprocess.Popen(
            [worker_bin, "worker"],
            **self._popen_kwargs(),
        )
        self._startup_count += 1

    def _ensure_running(self, count_restart=False):
        if self._process is None:
            self._spawn()
            return False
        if self._process.poll() is not None:
            if count_restart:
                self._restart_count += 1
            self._spawn()
            return False
        return True

    def _stop(self):
        with self._lock:
            if self._process is None:
                return
            try:
                if self._process.stdin:
                    self._process.stdin.close()
            except Exception:
                pass
            try:
                self._process.terminate()
            except Exception:
                pass
            self._process = None

    def stats(self):
        with self._lock:
            return {
                "worker_pid": self.worker_pid(),
                "startup_count": self._startup_count,
                "restart_count": self._restart_count,
                "request_count": self._request_count,
                "last_reused": self._last_reused,
                "last_request_id": self._last_request_id,
                "last_failure": self._last_failure,
            }

    def worker_pid(self):
        with self._lock:
            if self._process is None or self._process.poll() is not None:
                return None
            return self._process.pid

    def invoke(self, op: str, args: dict, request_id=None):
        with self._lock:
            req_id = request_id or str(uuid.uuid4())
            req = {"protocol_version": PROTOCOL_VERSION, "op": op, "request_id": req_id, "args": args}
            self._request_count += 1
            self._last_request_id = req_id

            last_exc = None
            for attempt in range(2):
                reused = self._ensure_running(count_restart=(attempt > 0))
                self._last_reused = reused
                try:
                    if self._process.stdin is None or self._process.stdout is None:
                        raise RuntimeError("worker stdio not available")
                    self._process.stdin.write(json.dumps(req) + "\n")
                    self._process.stdin.flush()
                    raw = self._process.stdout.readline()
                    if not raw:
                        raise RuntimeError("worker returned no response")
                    data = json.loads(raw)
                    self._last_failure = None
                    return _validate_response(op, req_id, data)
                except Exception as exc:
                    last_exc = exc
                    self._last_failure = str(exc)
                    self._stop()
            raise EngBindingError(
                "invoke_worker_failed",
                f"worker invocation failed after restart: {last_exc}",
                op=op,
                request_id=req_id,
            )


def _validate_response(op: str, request_id: str, data: dict):
    if data.get("protocol_version") != PROTOCOL_VERSION:
        raise EngBindingError(
            "protocol_version_mismatch",
            f"response protocol version '{data.get('protocol_version')}' does not match '{PROTOCOL_VERSION}'",
            op=op,
            request_id=data.get("request_id"),
        )
    if data.get("op") != op:
        raise EngBindingError(
            "operation_mismatch",
            f"response op '{data.get('op')}' does not match request op '{op}'",
            op=op,
            request_id=data.get("request_id"),
        )
    if data.get("request_id") and data.get("request_id") != request_id:
        raise EngBindingError(
            "request_id_mismatch",
            f"response request_id '{data.get('request_id')}' does not match '{request_id}'",
            op=op,
            request_id=data.get("request_id"),
        )
    if bool(data.get("ok", False)):
        return data.get("value")
    err = data.get("error") or {}
    raise EngBindingError(
        err.get("code", "invoke_error"),
        err.get("message", "unknown invoke error"),
        op=data.get("op", op),
        field=err.get("field"),
        request_id=data.get("request_id"),
        detail=err.get("detail"),
    )


def _select_client():
    runtime_pref = os.environ.get("ENGPY_RUNTIME", "").strip().lower()
    if runtime_pref not in {"", "native", "worker"}:
        raise EngBindingError(
            "invalid_runtime_preference",
            f"ENGPY_RUNTIME must be 'native' or 'worker', got '{runtime_pref}'",
        )
    if runtime_pref != "worker" and _NATIVE_RUNTIME is not None:
        return _NativeClient(_NATIVE_RUNTIME), "native"
    if runtime_pref == "native":
        raise EngBindingError(
            "native_runtime_unavailable",
            "ENGPY_RUNTIME=native requested but engpy_native could not be imported",
        )
    return _WorkerClient(), "worker"


if hasattr(builtins, "_ENGPY_CLIENT"):
    _CLIENT = builtins._ENGPY_CLIENT
    _RUNTIME_MODE = getattr(builtins, "_ENGPY_CLIENT_MODE", "worker")
else:
    _CLIENT, _RUNTIME_MODE = _select_client()
    builtins._ENGPY_CLIENT = _CLIENT
    builtins._ENGPY_CLIENT_MODE = _RUNTIME_MODE
atexit.register(_CLIENT._stop)


def runtime_mode():
    return _RUNTIME_MODE


def worker_pid():
    return _CLIENT.worker_pid()


def worker_stats():
    stats = _CLIENT.stats()
    stats["runtime_mode"] = _RUNTIME_MODE
    return stats


def runtime_info():
    info = worker_stats()
    info["native_fallback_reason"] = getattr(builtins, "_ENGPY_NATIVE_FALLBACK_REASON", None)
    return info


def stop_worker():
    _CLIENT._stop()


def _switch_to_worker_fallback(reason: str):
    global _CLIENT, _RUNTIME_MODE
    worker = _WorkerClient()
    _CLIENT = worker
    _RUNTIME_MODE = "worker"
    builtins._ENGPY_CLIENT = worker
    builtins._ENGPY_CLIENT_MODE = "worker"
    builtins._ENGPY_NATIVE_FALLBACK_REASON = reason
    return worker


def invoke(op: str, args: dict, request_id=None):
    try:
        return _CLIENT.invoke(op, args, request_id=request_id)
    except EngBindingError as exc:
        # If a stale native extension is loaded, allow transparent fallback.
        allow_fallback = os.environ.get("ENGPY_NATIVE_FALLBACK", "1").strip().lower() not in {"0", "false", "no"}
        if (
            allow_fallback
            and _RUNTIME_MODE == "native"
            and exc.code in {"unknown_operation", "protocol_version_mismatch"}
        ):
            reason = f"native incompatibility ({exc.code}) on op '{op}'"
            try:
                return _switch_to_worker_fallback(reason).invoke(op, args, request_id=request_id)
            except Exception as worker_exc:
                raise EngBindingError(
                    "native_incompatible_no_worker",
                    f"{reason}; worker fallback failed: {worker_exc}. Rebuild engpy_native (scripts/setup-native-bindings.*).",
                    op=op,
                    request_id=request_id,
                )
        raise
"#;

/// The Python runtime module that talks to the native extension or the worker. It names the protocol version it speaks.
pub fn render_python_runtime() -> (res: String)
    ensures
        res@ == PYTHON_RUNTIME_HEAD@ + INVOKE_PROTOCOL_VERSION@ + PYTHON_RUNTIME_TAIL@,
{
    let mut s = String::from_str(PYTHON_RUNTIME_HEAD);
    push_str(&mut s, INVOKE_PROTOCOL_VERSION);
    push_str(&mut s, PYTHON_RUNTIME_TAIL);
    s
}

/// Part 0 of the handbook's getting-started chapter.
pub const GETTING_STARTED_0: [&'static str; 17] = [
    "# Getting Started\n\n",
    "The top-level crate is `eng`. It re-exports equations, fluids, materials, constants, units, and docs export APIs.\n\n",
    "## Dependencies\n\n",
    "If `eng` is published, add:\n\n",
    "```toml\n",
    "[dependencies]\neng = \"0.1\"\n",
    "```\n\n",
    "For local workspace use from the generated handbook root (`generated/book`):\n\n",
    "```toml\n",
    "[dependencies]\neng = { path = \"../../crates/eng\" }\n",
    "```\n\n",
    "Run locally from this repo:\n\n",
    "```bash\n",
    "cargo run -p eng --example unified_usage\n",
    "cargo test -p eng core_handbook_workflows_execute\n",
    "```\n\n",
    "## Primary Imports\n\n```rust\n",
];

/// Part 1 of the handbook's getting-started chapter.
pub const GETTING_STARTED_1: [&'static str; 2] = [
    "\n```\n\n",
    "## First Successful Solve\n\n```rust\n",
];

/// Part 2 of the handbook's getting-started chapter.
pub const GETTING_STARTED_2: [&'static str; 2] = [
    "\n```\n\n",
    "Next: [Input Styles](../input_styles/index.md), [Equations Guide](../equations/guide.md), and [Examples & Workflows](../workflows/index.md).\n",
];

/// Renders the handbook's getting-started chapter.
pub fn render_getting_started(snippets: &DocSnippets) -> (res: String)
    ensures
        res@ == parts_text(GETTING_STARTED_0@) + trim_seq(snippets.top_level_import@) + parts_text(GETTING_STARTED_1@) + trim_seq(snippets.simple_equation_solve@) + parts_text(GETTING_STARTED_2@),
{
    let mut md = String::new();
    append_parts(&mut md, GETTING_STARTED_0.as_slice());
    push_str(&mut md, trim_str(snippets.top_level_import.as_str()));
    append_parts(&mut md, GETTING_STARTED_1.as_slice());
    push_str(&mut md, trim_str(snippets.simple_equation_solve.as_str()));
    append_parts(&mut md, GETTING_STARTED_2.as_slice());
    md
}

/// Part 0 of the handbook chapter on input styles.
pub const INPUT_STYLES_0: [&'static str; 7] = [
    "# Input Styles\n\n",
    "Use these input styles in order of preference:\n\n",
    "1. plain numeric SI (`f64`) for fastest path\n",
    "2. typed unit constructors for explicit units in Rust\n",
    "3. `qty!(\"...\")` for compile-time parsed literal expressions\n",
    "4. runtime strings for boundary input (CLI/UI/import)\n\n",
    "## Plain Numeric (Canonical SI)\n\n```rust\n",
];

/// Part 1 of the handbook chapter on input styles.
pub const INPUT_STYLES_1: [&'static str; 2] = [
    "\n```\n\n",
    "## Typed Unit Constructors\n\n```rust\n",
];

/// Part 2 of the handbook chapter on input styles.
pub const INPUT_STYLES_2: [&'static str; 2] = [
    "\n```\n\n",
    "## `qty!` Expressions\n\n```rust\n",
];

/// Part 3 of the handbook chapter on input styles.
pub const INPUT_STYLES_3: [&'static str; 2] = [
    "\n```\n\n",
    "## Runtime String Expressions\n\n```rust\n",
];

/// Part 4 of the handbook chapter on input styles.
pub const INPUT_STYLES_4: [&'static str; 1] = [
    "\n```\n\n",
];

/// Renders the handbook chapter on input styles.
pub fn render_input_styles(snippets: &DocSnippets) -> (res: String)
    ensures
        res@ == parts_text(INPUT_STYLES_0@) + trim_seq(snippets.simple_equation_solve@) + parts_text(INPUT_STYLES_1@) + trim_seq(snippets.typed_unit_input@) + parts_text(INPUT_STYLES_2@) + trim_seq(snippets.qty_macro_input@) + parts_text(INPUT_STYLES_3@) + trim_seq(snippets.runtime_string_input@) + parts_text(INPUT_STYLES_4@),
{
    let mut md = String::new();
    append_parts(&mut md, INPUT_STYLES_0.as_slice());
    push_str(&mut md, trim_str(snippets.simple_equation_solve.as_str()));
    append_parts(&mut md, INPUT_STYLES_1.as_slice());
    push_str(&mut md, trim_str(snippets.typed_unit_input.as_str()));
    append_parts(&mut md, INPUT_STYLES_2.as_slice());
    push_str(&mut md, trim_str(snippets.qty_macro_input.as_str()));
    append_parts(&mut md, INPUT_STYLES_3.as_slice());
    push_str(&mut md, trim_str(snippets.runtime_string_input.as_str()));
    append_parts(&mut md, INPUT_STYLES_4.as_slice());
    md
}

/// The handbook chapter on units and quantities.
pub const UNITS_QUANTITIES: [&'static str; 8] = [
    "# Units & Quantities\n\n",
    "The unit engine is dimension-based. Equivalent expressions reduce to canonical SI using dimensional algebra.\n\n",
    "Supported expression operators: `+`, `-`, `*`, `/`, parentheses.\n\n",
    "- Addition/subtraction require same dimensions.\n",
    "- Multiplication/division combine dimensions algebraically.\n",
    "- Bare numbers are dimensionless.\n",
    "- Input is validated against each variable's expected dimension.\n\n",
    "Temperature note: affine temperature pitfalls are intentionally guarded; use canonical absolute temperature where required.\n",
];

/// Renders the handbook chapter on units and quantities.
pub fn render_units_quantities() -> (res: String)
    ensures
        res@ == parts_text(UNITS_QUANTITIES@),
{
    let mut md = String::new();
    append_parts(&mut md, UNITS_QUANTITIES.as_slice());
    md
}

/// The handbook's equations guide.
pub const EQUATIONS_GUIDE: [&'static str; 5] = [
    "# Equations Guide\n\n",
    "Atomic equations are scalar-first relations with strong validation and tests.\n\n",
    "- [Equation Catalog](./index.md)\n",
    "- [Equation Families](./families/index.md)\n\n",
    "Family pages and variant pages are equation-scoped and cross-linked from each equation page.\n",
];

/// Renders the handbook's equations guide.
pub fn render_equations_guide() -> (res: String)
    ensures
        res@ == parts_text(EQUATIONS_GUIDE@),
{
    let mut md = String::new();
    append_parts(&mut md, EQUATIONS_GUIDE.as_slice());
    md
}

/// Part 0 of the handbook's fluids guide.
pub const FLUIDS_GUIDE_0: [&'static str; 27] = [
    "# Fluids Guide\n\n",
    "Fluids are first-class engineering objects with typed wrappers, explicit state constructors, a flexible generic state path, direct property accessors, and context integration with equations.\n\n",
    "## Recommended Usage Path\n\n",
    "- **Preferred fast path**: explicit constructors like `state_tp`, `state_ph`, `state_ps`, `state_rho_h`, `state_pq`, `state_tq`.\n",
    "- **Flexible path**: generic `state(\"T\", value, \"P\", value)` where property identity is explicit.\n",
    "- Use direct accessor methods (`rho()`, `mu()`, `cp()`, `gamma()`, ...) instead of generic string property reads when writing Rust code.\n\n",
    "## Constructor Capability Matrix\n\n",
    "| Constructor | Meaning | Typical Use |\n",
    "| --- | --- | --- |\n",
    "| `state_tp(T, P)` | Temperature + pressure | Most common fast path |\n",
    "| `state_ph(P, h)` | Pressure + specific enthalpy | Thermodynamic inversion workflows |\n",
    "| `state_ps(P, s)` | Pressure + specific entropy | Isentropic/entropy constrained workflows |\n",
    "| `state_rho_h(rho, h)` | Density + specific enthalpy | Density-driven model integration |\n",
    "| `state_pq(P, Q)` | Pressure + quality | Two-phase saturation states |\n",
    "| `state_tq(T, Q)` | Temperature + quality | Two-phase saturation states |\n",
    "| `state(\"T\", v1, \"P\", v2)` | Explicit property-name pair | Flexible bindings/CLI/file paths |\n\n",
    "## Generic Property Alias Map\n\n",
    "| Canonical | Accepted aliases |\n",
    "| --- | --- |\n",
    "| Temperature | `T`, `temperature` |\n",
    "| Pressure | `P`, `pressure` |\n",
    "| Density | `rho`, `density` |\n",
    "| Specific enthalpy | `h`, `enthalpy` |\n",
    "| Specific entropy | `s`, `entropy` |\n",
    "| Quality | `Q`, `quality`, `x` |\n\n",
    "Property identity is required in the generic path; there is no unit-only inference. This avoids ambiguity (for example `h` vs `u`).\n\n",
    "## Verified State Construction Examples\n\n```rust\n",
];

/// Part 1 of the handbook's fluids guide.
pub const FLUIDS_GUIDE_1: [&'static str; 17] = [
    "\n```\n\n",
    "## Direct Property Accessors\n\n",
    "| Accessor | Meaning |\n",
    "| --- | --- |\n",
    "| `pressure()` / `p()` | Pressure (Pa) |\n",
    "| `temperature()` / `t()` | Temperature (K) |\n",
    "| `density()` / `rho()` | Density (kg/m^3) |\n",
    "| `dynamic_viscosity()` / `mu()` | Dynamic viscosity (Pa*s) |\n",
    "| `thermal_conductivity()` / `k()` | Thermal conductivity (W/(m*K)) |\n",
    "| `specific_heat_capacity()` / `cp()` | Cp (J/(kg*K)) |\n",
    "| `specific_heat_capacity_cv()` / `cv()` | Cv (J/(kg*K)) |\n",
    "| `gamma()` | Heat capacity ratio |\n",
    "| `speed_of_sound()` / `a()` | Speed of sound (m/s) |\n",
    "| `specific_enthalpy()` / `h()` | Specific enthalpy (J/kg) |\n",
    "| `specific_entropy()` / `s()` | Specific entropy (J/(kg*K)) |\n",
    "| `quality()` | Quality in `[0,1]` for Q-based states |\n\n",
    "```rust\n",
];

/// Part 2 of the handbook's fluids guide.
pub const FLUIDS_GUIDE_2: [&'static str; 6] = [
    "\n```\n\n",
    "## Quality, Saturation, and State Metadata\n\n",
    "- `saturation_at_pressure(P)` returns `{ liquid, vapor }`\n",
    "- `saturation_at_temperature(T)` returns `{ liquid, vapor }`\n",
    "- State metadata includes `fluid_key()`, `fluid_name()`, `input_pair()`, `input_pair_label()`, `normalized_inputs()`, `quality()`, and `phase()`\n\n",
    "```rust\n",
];

/// Part 3 of the handbook's fluids guide.
pub const FLUIDS_GUIDE_3: [&'static str; 4] = [
    "\n```\n\n",
    "## Equation Context Integration\n\n",
    "Use direct property lookup when you need one-off values. Use `solve_with_context(...).fluid(state)` when an equation should auto-resolve fluid-dependent variables.\n\n",
    "Use fluid states directly in context solves:\n\n```rust\n",
];

/// Part 4 of the handbook's fluids guide.
pub const FLUIDS_GUIDE_4: [&'static str; 7] = [
    "\n```\n\n",
    "## Common Errors and Gotchas\n\n",
    "- Unknown/invalid generic property keys are rejected with explicit supported-key guidance.\n",
    "- Unsupported input pairs (for example `rho,T`) return clear pair diagnostics listing supported pairs.\n",
    "- `u`/internal-energy identifiers are intentionally rejected in the generic state-input path to avoid confusion with enthalpy `h`.\n",
    "- Parse and backend failures are recoverable and include fluid/pair/property context.\n\n",
    "## Catalog\n\n- [Fluids Catalog](./index.md)\n",
];

/// Renders the handbook's fluids guide.
pub fn render_fluids_guide(snippets: &DocSnippets) -> (res: String)
    ensures
        res@ == parts_text(FLUIDS_GUIDE_0@) + trim_seq(snippets.fluid_state_constructors@) + parts_text(FLUIDS_GUIDE_1@) + trim_seq(snippets.fluid_property_lookup@) + parts_text(FLUIDS_GUIDE_2@) + trim_seq(snippets.fluid_saturation_metadata@) + parts_text(FLUIDS_GUIDE_3@) + trim_seq(snippets.context_solve@) + parts_text(FLUIDS_GUIDE_4@),
{
    let mut md = String::new();
    append_parts(&mut md, FLUIDS_GUIDE_0.as_slice());
    push_str(&mut md, trim_str(snippets.fluid_state_constructors.as_str()));
    append_parts(&mut md, FLUIDS_GUIDE_1.as_slice());
    push_str(&mut md, trim_str(snippets.fluid_property_lookup.as_str()));
    append_parts(&mut md, FLUIDS_GUIDE_2.as_slice());
    push_str(&mut md, trim_str(snippets.fluid_saturation_metadata.as_str()));
    append_parts(&mut md, FLUIDS_GUIDE_3.as_slice());
    push_str(&mut md, trim_str(snippets.context_solve.as_str()));
    append_parts(&mut md, FLUIDS_GUIDE_4.as_slice());
    md
}

/// Part 0 of the handbook's materials guide.
pub const MATERIALS_GUIDE_0: [&'static str; 3] = [
    "# Materials Guide\n\n",
    "Materials provide temperature-conditioned property lookup from curated datasets.\n\n",
    "## Property Lookup\n\n```rust\n",
];

/// Part 1 of the handbook's materials guide.
pub const MATERIALS_GUIDE_1: [&'static str; 1] = [
    "\n```\n",
];

/// Renders the handbook's materials guide.
pub fn render_materials_guide(snippets: &DocSnippets) -> (res: String)
    ensures
        res@ == parts_text(MATERIALS_GUIDE_0@) + trim_seq(snippets.material_property_lookup@) + parts_text(MATERIALS_GUIDE_1@),
{
    let mut md = String::new();
    append_parts(&mut md, MATERIALS_GUIDE_0.as_slice());
    push_str(&mut md, trim_str(snippets.material_property_lookup.as_str()));
    append_parts(&mut md, MATERIALS_GUIDE_1.as_slice());
    md
}

/// The handbook chapter on authoring equations in YAML.
pub const YAML_AUTHORING: [&'static str; 40] = [
    "# YAML Authoring\n\n",
    "Equation YAML files live under `crates/equations/registry/<category>/`. Family YAML files live under `crates/equations/registry/families/`.\n\n",
    "## Minimal Equation Shape\n\n",
    "```yaml\n",
    "key: hoop_stress\n",
    "taxonomy:\n",
    "  category: structures\n",
    "name: Thin-Wall Hoop Stress\n",
    "display:\n",
    "  latex: \"\\\\sigma_h = \\\\frac{P r}{t}\"\n",
    "variables:\n",
    "  sigma_h: { dimension: stress, default_unit: Pa }\n",
    "  P: { dimension: pressure, default_unit: Pa }\n",
    "  r: { dimension: length, default_unit: m }\n",
    "  t: { dimension: length, default_unit: m }\n",
    "residual:\n",
    "  expression: \"sigma_h - P*r/t\"\n",
    "tests:\n",
    "  baseline:\n",
    "    sigma_h: \"62.5 MPa\"\n",
    "    P: \"2.5 MPa\"\n",
    "    r: \"0.2 m\"\n",
    "    t: \"8 mm\"\n",
    "```\n\n",
    "## Family YAML Shape\n\n",
    "```yaml\n",
    "key: ideal_gas\n",
    "name: Ideal Gas Law\n",
    "canonical_equation: thermo.ideal_gas.mass_volume\n",
    "variants:\n",
    "  - key: mass_volume\n",
    "    equation_id: thermo.ideal_gas.mass_volume\n",
    "  - key: density\n",
    "    equation_id: thermo.ideal_gas.density\n",
    "```\n\n",
    "Authoring workflow:\n",
    "1. add/update equation YAML\n",
    "2. add baseline tests in YAML\n",
    "3. run validation/tests\n",
    "4. regenerate docs/catalog/html exports\n",
];

/// Renders the handbook chapter on authoring equations in YAML.
pub fn render_yaml_authoring() -> (res: String)
    ensures
        res@ == parts_text(YAML_AUTHORING@),
{
    let mut md = String::new();
    append_parts(&mut md, YAML_AUTHORING.as_slice());
    md
}

/// The handbook chapter on validation and trust.
pub const VALIDATION_TRUST: [&'static str; 7] = [
    "# Validation / Trust\n\n",
    "Trust is enforced by registry validation, solver tests, generated-link checks, and docs export verification.\n\n",
    "- Equation and family schema/consistency validation\n",
    "- Core solver/path tests (SI, typed, `qty!`, runtime string)\n",
    "- mdBook link integrity tests\n",
    "- Unified export verification script\n\n",
    "Docs examples for core workflows are backed by executable tests.\n",
];

/// Renders the handbook chapter on validation and trust.
pub fn render_validation_trust() -> (res: String)
    ensures
        res@ == parts_text(VALIDATION_TRUST@),
{
    let mut md = String::new();
    append_parts(&mut md, VALIDATION_TRUST.as_slice());
    md
}

/// The handbook's bindings guide.
pub const BINDINGS_GUIDE: [&'static str; 128] = [
    "# Bindings (Python and Excel)\n\n",
    "Rust remains the authoritative implementation. Generated Python and Excel bindings are thin adapters over the same public binding model.\n\n",
    "## Generated Outputs\n\n",
    "- `generated/bindings/binding_spec.json`\n",
    "- `generated/bindings/invoke_protocol.json`\n",
    "- `generated/bindings/python/engpy/...`\n",
    "- `generated/bindings/python/engpy/study.py`\n",
    "- `generated/bindings/python/pyproject.toml` (maturin build config for `engpy_native`)\n",
    "- `generated/bindings/excel/eng_xloil.py`\n",
    "- `generated/bindings/excel/eng_pyxll.py`\n\n",
    "`binding_spec.json` is transport-agnostic (function names, args, returns, help, examples). `invoke_protocol.json` documents the current runtime transport contract.\n\n",
    "## Naming Rules\n\n",
    "- Python: namespaced modules (`engpy.equations.<category>.<equation_slug>.*`, `engpy.devices.*`, `engpy.fluids.*`, `engpy.materials.*`, `engpy.constants.*`).\n",
    "- Excel: flat worksheet-friendly functions (`ENG_*`).\n",
    "- Families are exposed under `engpy.equations.families.<family>.<variant>`.\n\n",
    "## Metadata and Diagnostics Functions\n\n",
    "- Python:\n",
    "  - `engpy.equations.meta.equation_meta(path_id)`\n",
    "  - `engpy.equations.meta.equation_ascii(path_id)`\n",
    "  - `engpy.equations.meta.equation_unicode(path_id)`\n",
    "  - `engpy.equations.meta.equation_latex(path_id)`\n",
    "  - `engpy.equations.meta.equation_targets(path_id)`\n",
    "  - `engpy.equations.meta.equation_variables(path_id)`\n",
    "  - `engpy.equations.meta.equation_name(path_id)`\n",
    "  - `engpy.equations.meta.equation_description(path_id)`\n",
    "  - `engpy.equations.meta.equation_family(path_id)`\n",
    "  - `engpy.equations.meta.equation_default_unit(path_id, variable)`\n",
    "  - `engpy.helpers.equation_targets_text(path_id)`\n",
    "  - `engpy.helpers.equation_variables_text(path_id)`\n",
    "  - `engpy.helpers.equation_branches_text(path_id)`\n",
    "  - `engpy.helpers.fluid_properties_text(key)`\n",
    "  - `engpy.helpers.material_properties_text(key)`\n",
    "  - `engpy.helpers.device_modes_text(key)`\n",
    "  - `engpy.helpers.equation_targets_table(path_id)`\n",
    "  - `engpy.helpers.equation_variables_table(path_id)`\n",
    "  - `engpy.helpers.equation_branches_table(path_id)`\n",
    "  - `engpy.helpers.fluid_properties_table(key)`\n",
    "  - `engpy.helpers.material_properties_table(key)`\n",
    "  - `engpy.helpers.equation_target_count(path_id)`\n",
    "  - `engpy.helpers.equation_variable_count(path_id)`\n",
    "  - `engpy.helpers.fluid_property_count(key)`\n",
    "  - `engpy.helpers.material_property_count(key)`\n",
    "  - `engpy.helpers.device_mode_count(key)`\n",
    "  - `engpy.helpers.format_value(value, in_unit, out_unit)`\n",
    "  - `engpy.helpers.meta_get(entity, key, field)`\n",
    "  - `engpy.study.equation_sweep_table(...)`\n",
    "  - `engpy.study.isentropic_m_to_p_p0_table(...)`\n",
    "  - `engpy.study.nozzle_flow_table(...)`\n",
    "  - `engpy.study.normal_shock_table(...)`\n",
    "  - `engpy.study.nozzle_normal_shock_workflow_table(...)`\n",
    "- Excel:\n",
    "  - `ENG_FORMAT(value, in_unit, out_unit)`\n",
    "  - `ENG_META(entity, key, field)`\n",
    "  - `ENG_EQUATION_META(path_id)`\n",
    "  - `ENG_EQUATION_ASCII(path_id)`\n",
    "  - `ENG_EQUATION_UNICODE(path_id)`\n",
    "  - `ENG_EQUATION_LATEX(path_id)`\n",
    "  - `ENG_EQUATION_TARGETS(path_id)`\n",
    "  - `ENG_EQUATION_VARIABLES(path_id)`\n",
    "  - `ENG_EQUATION_NAME(path_id)`\n",
    "  - `ENG_EQUATION_DESCRIPTION(path_id)`\n",
    "  - `ENG_EQUATION_FAMILY(path_id)`\n",
    "  - `ENG_EQUATION_DEFAULT_UNIT(path_id, variable)`\n\n",
    "  - `ENG_STUDY_ISENTROPIC_M_TO_P_P0_TABLE(gamma, start, end, count, [branch])`\n",
    "  - `ENG_STUDY_NOZZLE_FLOW_TABLE(gamma, start, end, count, branch)`\n",
    "  - `ENG_STUDY_NORMAL_SHOCK_TABLE(gamma, start, end, count)`\n",
    "  - `ENG_STUDY_NOZZLE_NORMAL_SHOCK_WORKFLOW_TABLE(gamma, start, end, count, branch)`\n\n",
    "  - `ENG_EQUATION_TARGETS_TEXT(path_id)` / `ENG_EQUATION_VARIABLES_TEXT(path_id)`\n",
    "  - `ENG_EQUATION_BRANCHES_TEXT(path_id)`\n",
    "  - `ENG_FLUID_PROPERTIES_TEXT(fluid_key)` / `ENG_MATERIAL_PROPERTIES_TEXT(material_key)` / `ENG_DEVICE_MODES_TEXT(device_key)`\n",
    "  - `ENG_EQUATION_TARGETS_TABLE(path_id)` / `ENG_EQUATION_VARIABLES_TABLE(path_id)`\n",
    "  - `ENG_EQUATION_BRANCHES_TABLE(path_id)`\n",
    "  - `ENG_FLUID_PROPERTIES_TABLE(fluid_key)` / `ENG_MATERIAL_PROPERTIES_TABLE(material_key)`\n",
    "  - `ENG_EQUATION_TARGET_COUNT(path_id)` / `ENG_EQUATION_VARIABLE_COUNT(path_id)`\n",
    "  - `ENG_FLUID_PROPERTY_COUNT(fluid_key)` / `ENG_MATERIAL_PROPERTY_COUNT(material_key)` / `ENG_DEVICE_MODE_COUNT(device_key)`\n\n",
    "Delimited TEXT helpers use `; ` as a deterministic separator.\n\n",
    "Use these helpers for a composable workflow: keep core engineering calls simple, then layer formatting/reference metadata as needed.\n\n",
    "### Clean Excel Pattern\n\n",
    "```excel\n=ENG_HOOP_STRESS_SIGMA_H(P, r, t)\n=ENG_FORMAT(ENG_HOOP_STRESS_SIGMA_H(P, r, t), \"Pa\", \"psia\")\n=ENG_EQUATION_ASCII(\"structures.hoop_stress\")\n=ENG_META(\"equation\", \"structures.hoop_stress\", \"targets\")\n```\n\n",
    "### Excel single-cell text helpers\n\n",
    "```excel\n=ENG_EQUATION_TARGETS_TEXT(\"structures.hoop_stress\")\n=ENG_EQUATION_VARIABLES_TEXT(\"structures.hoop_stress\")\n=ENG_EQUATION_BRANCHES_TEXT(\"compressible.area_mach\")\n=ENG_FLUID_PROPERTIES_TEXT(\"H2O\")\n=ENG_MATERIAL_PROPERTIES_TEXT(\"stainless_304\")\n=ENG_DEVICE_MODES_TEXT(\"pipe_loss\")\n```\n\n",
    "### Excel spill-range table helpers\n\n",
    "```excel\n=ENG_EQUATION_VARIABLES_TABLE(\"structures.hoop_stress\")\n=ENG_EQUATION_TARGETS_TABLE(\"structures.hoop_stress\")\n=ENG_EQUATION_BRANCHES_TABLE(\"compressible.area_mach\")\n=ENG_FLUID_PROPERTIES_TABLE(\"H2O\")\n=ENG_MATERIAL_PROPERTIES_TABLE(\"stainless_304\")\n```\n\n",
    "Native in-process runtime supports Python usage on Linux and Windows without requiring a platform-specific executable per call.\n\n",
    "## Build / Install (Native Python Runtime)\n\n",
    "- From `generated/bindings/python`, build/install the extension with maturin (for example `maturin develop` in an active Python environment).\n",
    "- Generated `engpy` wrappers call `engpy_native` in-process by default.\n",
    "- If the extension is unavailable, wrappers automatically fall back to worker mode.\n\n",
    "### One-command Setup Helpers\n\n",
    "- Windows: `scripts/setup-native-bindings.ps1`\n",
    "- Linux: `scripts/setup-native-bindings.sh`\n",
    "- Runtime verification: `scripts/verify-native-bindings.ps1` or `scripts/verify-native-bindings.sh`\n\n",
    "These scripts create/use a virtual environment, install `maturin`, install `engpy_native`, then verify runtime mode.\n\n",
    "## Excel Function Help and Intellisense\n\n",
    "- Generated xlOil/PyXLL functions now include richer help text: summary, per-argument guidance, return info, and a formula example.\n",
    "- Argument names are optimized for Excel readability on binding-friendly functions (for example pipe-loss uses `density`, `viscosity`, `roughness` instead of terse symbols).\n",
    "- Function Wizard help is the primary native Excel help surface for custom functions.\n",
    "- Excel custom function inline IntelliSense popups can be limited natively; when richer inline tooltip behavior is needed, use an IntelliSense add-in path (for example Excel-DNA IntelliSense with compatible workflows).\n",
    "- Shortcut: `Ctrl+Shift+A` inserts function arguments into a worksheet formula to make argument order explicit.\n\n",
    "## Runtime Protocol and Transport\n\n",
    "- Default runtime is in-process via native Rust/Python extension module (`engpy_native`).\n",
    "- Compatibility fallback runtime is persistent `eng worker` over stdio JSON-lines.\n",
    "- The per-call envelope is unchanged: `protocol_version`, `op`, optional `request_id`, `args`.\n",
    "- Generated Python runtime prefers native in-process mode, and only uses worker when native is unavailable or `ENGPY_RUNTIME=worker` is set.\n",
    "- On Windows worker fallback startup is hidden (`CREATE_NO_WINDOW`) to avoid console popup windows during Excel recalculation.\n",
    "- Worker fallback executable resolution: `ENG_WORKER_BIN` (fallback: `ENG_BIN`, then `eng`).\n",
    "- Runtime preference override: `ENGPY_RUNTIME=native|worker`.\n",
    "- Success response: `ok=true`, `value`, plus echoed `protocol_version`/`op`/`request_id`.\n",
    "- Error response: `ok=false`, `error.code`, `error.message`, optional `error.field` and `error.detail`.\n",
    "- Excel docs show one formula surface because xlOil and PyXLL are generated identically.\n",
    "- No engineering physics logic is implemented in generated Python modules.\n",
    "- Equation/device/fluid/material/constant behavior remains in Rust.\n\n",
    "## Error Model (Bindings)\n\n",
    "- Stable error `code` values are intended for wrapper logic and automation.\n",
    "- Human-facing `message` remains suitable for worksheet/Python troubleshooting.\n",
    "- `field` and `detail` provide argument-level and operation context.\n",
    "\n## Runtime Troubleshooting\n\n",
    "- Use `engpy._runtime.runtime_mode()` to confirm active runtime (`native` or `worker`).\n",
    "- Use `engpy._runtime.worker_stats()` to inspect runtime request counters, last failure, and worker PID when fallback is active.\n",
    "- Use `engpy._runtime.worker_pid()` for quick worker PID checks in fallback mode.\n",
    "- If needed, call `engpy._runtime.stop_worker()` to force a clean worker restart on next request (no-op in native mode).\n",
    "- If mode is unexpectedly `worker`, verify `engpy_native` imports in the same Python environment used by xlOil/PyXLL.\n",
    "- Runtime preference override: `ENGPY_RUNTIME=native|worker`.\n",
    "- Worker fallback executable overrides: `ENG_WORKER_BIN` and `ENG_BIN`.\n",
    "\nVerification snippet:\n\n```python\nimport engpy_native\nimport engpy._runtime as rt\nprint(rt.runtime_mode())\nprint(engpy_native.runtime_info())\n```\n",
    "\n## CI vs Local Verification\n\n",
    "- CI/repo checks validate generated binding artifacts, protocol/schema, docs generation, and runtime diagnostics surfaces.\n",
    "- Native environment activation (`maturin develop` + import in target interpreter) is machine/environment-specific and should be validated with the setup/verify scripts on each dev machine.\n",
];

/// Renders the handbook's bindings guide.
pub fn render_bindings_guide() -> (res: String)
    ensures
        res@ == parts_text(BINDINGS_GUIDE@),
{
    let mut md = String::new();
    append_parts(&mut md, BINDINGS_GUIDE.as_slice());
    md
}

/// Part 0 of the handbook chapter of examples and workflows.
pub const WORKFLOWS_0: [&'static str; 3] = [
    "# Examples & Workflows\n\n",
    "These examples are sourced from verified snippets and corresponding tests.\n\n",
    "## 1. Simple Equation Solve\n\n```rust\n",
];

/// Part 1 of the handbook chapter of examples and workflows.
pub const WORKFLOWS_1: [&'static str; 2] = [
    "\n```\n\n",
    "## 2. Typed Unit Solve\n\n```rust\n",
];

/// Part 2 of the handbook chapter of examples and workflows.
pub const WORKFLOWS_2: [&'static str; 2] = [
    "\n```\n\n",
    "## 3. `qty!` Solve\n\n```rust\n",
];

/// Part 3 of the handbook chapter of examples and workflows.
pub const WORKFLOWS_3: [&'static str; 2] = [
    "\n```\n\n",
    "## 4. Runtime String Solve\n\n```rust\n",
];

/// Part 4 of the handbook chapter of examples and workflows.
pub const WORKFLOWS_4: [&'static str; 2] = [
    "\n```\n\n",
    "## 5. Fluid-Assisted Solve\n\n```rust\n",
];

/// Part 5 of the handbook chapter of examples and workflows.
pub const WORKFLOWS_5: [&'static str; 2] = [
    "\n```\n\n",
    "## 6. Family Variant Solve\n\n```rust\n",
];

/// Part 6 of the handbook chapter of examples and workflows.
pub const WORKFLOWS_6: [&'static str; 2] = [
    "\n```\n\n",
    "## 7. Direct Fluid/Material Property Lookup\n\n```rust\n",
];

/// Part 7 of the handbook chapter of examples and workflows.
pub const WORKFLOWS_7: [&'static str; 1] = [
    "\n```\n\n```rust\n",
];

/// Part 8 of the handbook chapter of examples and workflows.
pub const WORKFLOWS_8: [&'static str; 2] = [
    "\n```\n\n",
    "## 8. Device Workflow: Pipe Pressure Drop (Fixed f)\n\n```rust\n",
];

/// Part 9 of the handbook chapter of examples and workflows.
pub const WORKFLOWS_9: [&'static str; 2] = [
    "\n```\n\n",
    "## 9. Device Workflow: Pipe Pressure Drop (Colebrook Direct Inputs)\n\n```rust\n",
];

/// Part 10 of the handbook chapter of examples and workflows.
pub const WORKFLOWS_10: [&'static str; 2] = [
    "\n```\n\n",
    "## 10. Device Workflow: Pipe Pressure Drop (Colebrook + Fluid Context)\n\n```rust\n",
];

/// Part 11 of the handbook chapter of examples and workflows.
pub const WORKFLOWS_11: [&'static str; 12] = [
    "\n```\n\n",
    "## 11. Solve Layer Workflow: Nozzle -> Normal Shock Station Chain\n\n```rust\n",
    "use eng::devices::NozzleFlowBranch;\n",
    "use eng::solve::{NozzleShockWorkflowRequest, run_nozzle_normal_shock_workflow};\n\n",
    "let out = run_nozzle_normal_shock_workflow(NozzleShockWorkflowRequest {\n",
    "    gamma: 1.4,\n",
    "    area_ratio: 2.0,\n",
    "    nozzle_branch: NozzleFlowBranch::Supersonic,\n",
    "})?;\n",
    "println!(\"M_pre={}, M_post={}\", out.pre_shock_mach, out.post_shock_mach);\n",
    "println!(\"trace={}\", out.path_text());\n",
    "```\n",
];

/// Renders the handbook chapter of examples and workflows.
pub fn render_workflows(snippets: &DocSnippets) -> (res: String)
    ensures
        res@ == parts_text(WORKFLOWS_0@) + trim_seq(snippets.simple_equation_solve@) + parts_text(WORKFLOWS_1@) + trim_seq(snippets.typed_unit_input@) + parts_text(WORKFLOWS_2@) + trim_seq(snippets.qty_macro_input@) + parts_text(WORKFLOWS_3@) + trim_seq(snippets.runtime_string_input@) + parts_text(WORKFLOWS_4@) + trim_seq(snippets.context_solve@) + parts_text(WORKFLOWS_5@) + trim_seq(snippets.family_variant_access@) + parts_text(WORKFLOWS_6@) + trim_seq(snippets.fluid_property_lookup@) + parts_text(WORKFLOWS_7@) + trim_seq(snippets.material_property_lookup@) + parts_text(WORKFLOWS_8@) + trim_seq(snippets.device_pipe_loss_fixed@) + parts_text(WORKFLOWS_9@) + trim_seq(snippets.device_pipe_loss_colebrook_direct@) + parts_text(WORKFLOWS_10@) + trim_seq(snippets.device_pipe_loss_colebrook_fluid@) + parts_text(WORKFLOWS_11@),
{
    let mut md = String::new();
    append_parts(&mut md, WORKFLOWS_0.as_slice());
    push_str(&mut md, trim_str(snippets.simple_equation_solve.as_str()));
    append_parts(&mut md, WORKFLOWS_1.as_slice());
    push_str(&mut md, trim_str(snippets.typed_unit_input.as_str()));
    append_parts(&mut md, WORKFLOWS_2.as_slice());
    push_str(&mut md, trim_str(snippets.qty_macro_input.as_str()));
    append_parts(&mut md, WORKFLOWS_3.as_slice());
    push_str(&mut md, trim_str(snippets.runtime_string_input.as_str()));
    append_parts(&mut md, WORKFLOWS_4.as_slice());
    push_str(&mut md, trim_str(snippets.context_solve.as_str()));
    append_parts(&mut md, WORKFLOWS_5.as_slice());
    push_str(&mut md, trim_str(snippets.family_variant_access.as_str()));
    append_parts(&mut md, WORKFLOWS_6.as_slice());
    push_str(&mut md, trim_str(snippets.fluid_property_lookup.as_str()));
    append_parts(&mut md, WORKFLOWS_7.as_slice());
    push_str(&mut md, trim_str(snippets.material_property_lookup.as_str()));
    append_parts(&mut md, WORKFLOWS_8.as_slice());
    push_str(&mut md, trim_str(snippets.device_pipe_loss_fixed.as_str()));
    append_parts(&mut md, WORKFLOWS_9.as_slice());
    push_str(&mut md, trim_str(snippets.device_pipe_loss_colebrook_direct.as_str()));
    append_parts(&mut md, WORKFLOWS_10.as_slice());
    push_str(&mut md, trim_str(snippets.device_pipe_loss_colebrook_fluid.as_str()));
    append_parts(&mut md, WORKFLOWS_11.as_slice());
    md
}

/// The handbook chapter on the engineering solve layer.
pub const SOLVE_LAYER: [&'static str; 25] = [
    "# Engineering Solve Layer\n\n",
    "`eng::solve` is the canonical home for reusable multi-step solve/workflow infrastructure.\n\n",
    "## Ownership Scope\n\n",
    "- Shared numeric root solve wrappers with convergence diagnostics\n",
    "- Shared ODE step wrappers for engineering integrations\n",
    "- Station/state chaining and step provenance records\n",
    "- Workflow-level warnings and structured errors\n\n",
    "## Out of Scope\n\n",
    "- Atomic equation definitions (stay in YAML/registry)\n",
    "- Device-specific binding naming/polish logic\n",
    "- Full arbitrary graph optimization engines\n\n",
    "## Rust Example\n\n```rust\n",
    "use eng::devices::NozzleFlowBranch;\n",
    "use eng::solve::{NozzleShockWorkflowRequest, run_nozzle_normal_shock_workflow};\n\n",
    "let chain = run_nozzle_normal_shock_workflow(NozzleShockWorkflowRequest {\n",
    "    gamma: 1.4,\n",
    "    area_ratio: 2.0,\n",
    "    nozzle_branch: NozzleFlowBranch::Supersonic,\n",
    "})?;\n",
    "println!(\"station trace: {}\", chain.path_text());\n",
    "```\n\n",
    "## Standardized Numeric Homes\n\n",
    "- `eng::solve::numeric`: bracketed root solve and scan+bisect helpers.\n",
    "- `eng::solve::ode`: reusable RK4 stepping wrapper.\n\n",
    "Conical-shock Taylor-Maccoll stepping and branch-sensitive oblique/conical inversions use this layer.\n",
];

/// Renders the handbook chapter on the engineering solve layer.
pub fn render_solve_layer_page() -> (res: String)
    ensures
        res@ == parts_text(SOLVE_LAYER@),
{
    let mut md = String::new();
    append_parts(&mut md, SOLVE_LAYER.as_slice());
    md
}

/// The handbook chapter on studies and parameter sweeps.
pub const STUDIES: [&'static str; 49] = [
    "# Studies and Parameter Sweeps\n\n",
    "`eng::solve::study` is the standard subsystem for diagnostics-aware parameter studies across equations, devices, and solve-layer workflows.\n\n",
    "## Scope\n\n",
    "- 1D sweeps (`values`, `linspace`, `logspace`)\n",
    "- per-row status (`ok`/`failed`) without aborting the whole study\n",
    "- table-first outputs suitable for Python and Excel spill ranges\n",
    "- concise per-row path/provenance summaries\n\n",
    "## Rust: Equation Study\n\n",
    "```rust\n",
    "use std::collections::BTreeMap;\n",
    "use eng::solve::{EquationStudySpec, SweepAxis, run_equation_study};\n\n",
    "let mut fixed = BTreeMap::new();\n",
    "fixed.insert(\"gamma\".to_string(), 1.4);\n",
    "let table = run_equation_study(&EquationStudySpec {\n",
    "    path_id: \"compressible.isentropic_pressure_ratio\".to_string(),\n",
    "    target: \"p_p0\".to_string(),\n",
    "    sweep_variable: \"M\".to_string(),\n",
    "    fixed_inputs: fixed,\n",
    "    branch: None,\n",
    "}, SweepAxis::linspace(0.2, 3.0, 21));\n",
    "```\n\n",
    "## Rust: Device Study\n\n",
    "```rust\n",
    "use eng::devices::NozzleFlowBranch;\n",
    "use eng::solve::{SweepAxis, study_nozzle_flow_area_ratio};\n\n",
    "let table = study_nozzle_flow_area_ratio(\n",
    "    1.4,\n",
    "    SweepAxis::linspace(1.2, 3.0, 20),\n",
    "    NozzleFlowBranch::Supersonic,\n",
    ");\n",
    "```\n\n",
    "## Rust: Workflow-Chain Study\n\n",
    "```rust\n",
    "use eng::devices::NozzleFlowBranch;\n",
    "use eng::solve::{SweepAxis, study_nozzle_normal_shock_workflow};\n\n",
    "let table = study_nozzle_normal_shock_workflow(\n",
    "    1.4,\n",
    "    SweepAxis::linspace(1.2, 3.0, 20),\n",
    "    NozzleFlowBranch::Supersonic,\n",
    ");\n",
    "```\n\n",
    "## Python / Excel (Targeted v1)\n\n",
    "- Python module: `engpy.study`\n",
    "- Excel spill-table helpers:\n",
    "  - `ENG_STUDY_ISENTROPIC_M_TO_P_P0_TABLE(...)`\n",
    "  - `ENG_STUDY_NOZZLE_FLOW_TABLE(...)`\n",
    "  - `ENG_STUDY_NORMAL_SHOCK_TABLE(...)`\n",
    "  - `ENG_STUDY_NOZZLE_NORMAL_SHOCK_WORKFLOW_TABLE(...)`\n\n",
    "Each helper returns a structured payload with both a rich `table` object and `spill` rows suitable for worksheet charting.\n",
];

/// Renders the handbook chapter on studies and parameter sweeps.
pub fn render_studies_page() -> (res: String)
    ensures
        res@ == parts_text(STUDIES@),
{
    let mut md = String::new();
    append_parts(&mut md, STUDIES.as_slice());
    md
}

/// The bindings section of a fluid page.
pub const FLUID_BINDING_EXAMPLES: &'static str = "## Bindings\n\n### Python\n```python\nengpy.fluids.fluid_prop(\"H2O\", \"T\", \"300 K\", \"P\", \"1 bar\", \"rho\")\nengpy.helpers.fluid_properties(\"H2O\")\nengpy.helpers.fluid_properties_text(\"H2O\")\nengpy.helpers.fluid_properties_table(\"H2O\")\nengpy.helpers.fluid_property_count(\"H2O\")\n```\n\n### Excel\n```excel\n=ENG_FLUID_PROP(\"H2O\",\"T\",\"300 K\",\"P\",\"1 bar\",\"rho\")\n=ENG_FLUID_PROPERTIES(\"H2O\")\n=ENG_FLUID_PROPERTIES_TEXT(\"H2O\")\n=ENG_FLUID_PROPERTIES_TABLE(\"H2O\")\n=ENG_FLUID_PROPERTY_COUNT(\"H2O\")\n```\n\n**Excel arguments**\n- `fluid`: fluid key or alias\n- `state_prop_1`, `state_value_1`: first state-defining property and value\n- `state_prop_2`, `state_value_2`: second state-defining property and value\n- `out_prop`: property to return (for example `rho`, `mu`, `cp`)\n";

/// Renders the bindings section of a fluid page.
pub fn render_binding_examples_for_fluid() -> (res: String)
    ensures
        res@ == FLUID_BINDING_EXAMPLES@,
{
    String::from_str(FLUID_BINDING_EXAMPLES)
}

/// The bindings section of a material page.
pub const MATERIAL_BINDING_EXAMPLES: &'static str = "## Bindings\n\n### Python\n```python\nengpy.materials.mat_prop(\"stainless_304\", \"elastic_modulus\", \"350 K\")\nengpy.helpers.material_properties(\"stainless_304\")\nengpy.helpers.material_properties_text(\"stainless_304\")\nengpy.helpers.material_properties_table(\"stainless_304\")\nengpy.helpers.material_property_count(\"stainless_304\")\n```\n\n### Excel\n```excel\n=ENG_MAT_PROP(\"stainless_304\",\"elastic_modulus\",\"350 K\")\n=ENG_MATERIAL_PROPERTIES(\"stainless_304\")\n=ENG_MATERIAL_PROPERTIES_TEXT(\"stainless_304\")\n=ENG_MATERIAL_PROPERTIES_TABLE(\"stainless_304\")\n=ENG_MATERIAL_PROPERTY_COUNT(\"stainless_304\")\n```\n\n**Excel arguments**\n- `material`: material key or alias\n- `property_key`: material property key (for example `elastic_modulus`)\n- `temperature`: evaluation temperature (recommended with explicit units)\n";

/// Renders the bindings section of a material page.
pub fn render_binding_examples_for_material() -> (res: String)
    ensures
        res@ == MATERIAL_BINDING_EXAMPLES@,
{
    String::from_str(MATERIAL_BINDING_EXAMPLES)
}

/// The README of the generated mdBook source.
pub const MDBOOK_README: &'static str = "# Generated Unified mdBook\n\nThis directory is generated by `eng::docs`.\n";

/// Renders the README of the generated mdBook source.
pub fn render_mdbook_readme() -> (res: String)
    ensures
        res@ == MDBOOK_README@,
{
    String::from_str(MDBOOK_README)
}

/// The message shown when `mdbook` is not installed.
pub const MISSING_MDBOOK_MESSAGE: &'static str = "mdBook source generation succeeded, but HTML was not built because `mdbook` was not found in PATH.\n\nInstall mdBook:\n  cargo install mdbook\n";

/// Renders the message shown when `mdbook` is not installed.
pub fn missing_mdbook_message() -> (res: String)
    ensures
        res@ == MISSING_MDBOOK_MESSAGE@,
{
    String::from_str(MISSING_MDBOOK_MESSAGE)
}

} // verus!
