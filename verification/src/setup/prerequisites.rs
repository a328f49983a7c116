//! System prerequisite rows for the Setup Wizard: detect and suggest, never
//! install. The Windows VCRedist helper is the one documented exception and
//! is flagged on its row.

use vstd::prelude::*;

use crate::text::{concat2, owned, str_eq};

verus! {

#[derive(Debug, Clone, Copy, PartialEq, Eq, Structural)]
pub enum PrerequisiteStatus {
    /// Present and working.
    Satisfied,
    Missing,
    /// Detected but possibly insufficient (VCRedist present, llama-server still fails).
    Degraded,
    /// Not relevant on this OS; the UI hides it.
    NotApplicable,
}

/// One system prerequisite row.
#[derive(Debug, Clone, PartialEq, Eq)]
pub struct PrerequisiteCheck {
    pub id: String,
    pub label: String,
    pub status: PrerequisiteStatus,
    /// How the user might fix a missing or degraded prerequisite.
    pub guidance: Option<String>,
    /// Whether the row applies to the current platform.
    pub applicable: bool,
    /// Present when the row still offers an install helper (documented exception).
    pub install_helper_exception: Option<String>,
}

/// All rows for one platform.
#[derive(Debug, Clone, PartialEq, Eq)]
pub struct PrerequisiteReport {
    pub platform: String,
    pub checks: Vec<PrerequisiteCheck>,
}

/// Detection results the rows are evaluated from.
#[derive(Debug, Clone)]
pub struct PrerequisiteInputs {
    pub platform: String,
    pub vcredist_present: bool,
    pub vulkan_ok: bool,
    pub llama_server_ok: bool,
    pub llama_server_msg: String,
}

/// A row as plain values: (id, label, status, guidance, applicable, helper note).
pub type CheckView = (
    Seq<char>,
    Seq<char>,
    PrerequisiteStatus,
    Option<Seq<char>>,
    bool,
    Option<Seq<char>>,
);

pub open spec fn opt_view(o: Option<String>) -> Option<Seq<char>> {
    match o {
        Some(s) => Some(s@),
        None => None,
    }
}

pub open spec fn check_view(c: PrerequisiteCheck) -> CheckView {
    (c.id@, c.label@, c.status, opt_view(c.guidance), c.applicable, opt_view(c.install_helper_exception))
}

pub open spec fn degraded_vcredist_text() -> Seq<char> {
    "Visual C++ Runtime is present but llama-server still fails to start. Update VCRedist 2022 x64 from Microsoft, or use the optional in-app helper (documented exception to detect+suggest)."@
}

pub open spec fn missing_vcredist_text() -> Seq<char> {
    "Install Visual C++ Redistributable 2022 x64 from https://learn.microsoft.com/en-us/cpp/windows/latest-supported-vc-redist (or use the optional in-app helper \u{2014} documented exception)."@
}

pub open spec fn vcredist_exception_text() -> Seq<char> {
    "install_vcredist downloads and silently runs the Microsoft VCRedist installer. Prefer detect+suggest; helper retained temporarily for Windows Guest path."@
}

pub open spec fn gpu_guidance_text(platform: Seq<char>) -> Seq<char> {
    if platform == "macos"@ {
        "GPU stack not detected. Ensure macOS Metal is available (system default)."@
    } else if platform == "windows"@ {
        "Install or update GPU drivers (AMD / Nvidia / Intel) that include Vulkan support."@
    } else {
        "Install a Vulkan driver package for your GPU, e.g. mesa-vulkan-drivers, amdvlk, or the Nvidia proprietary driver. The Setup Wizard will not run a package manager."@
    }
}

pub open spec fn llama_guidance_suffix() -> Seq<char> {
    ". Open Setup repair to re-download app-managed artifacts if the binary is missing."@
}

/// The VCRedist row (Windows only).
pub open spec fn vcredist_row(vcredist_present: bool, llama_server_ok: bool) -> CheckView {
    let (status, guidance) = if vcredist_present && llama_server_ok {
        (PrerequisiteStatus::Satisfied, None)
    } else if vcredist_present {
        (PrerequisiteStatus::Degraded, Some(degraded_vcredist_text()))
    } else {
        (PrerequisiteStatus::Missing, Some(missing_vcredist_text()))
    };
    ("vcredist"@, "Visual C++ Runtime 2022"@, status, guidance, true, Some(vcredist_exception_text()))
}

/// The GPU row (Metal on macOS, Vulkan elsewhere).
pub open spec fn gpu_row(platform: Seq<char>, vulkan_ok: bool) -> CheckView {
    (
        "vulkan"@,
        if platform == "macos"@ {
            "Metal / GPU"@
        } else {
            "Vulkan Runtime"@
        },
        if vulkan_ok {
            PrerequisiteStatus::Satisfied
        } else {
            PrerequisiteStatus::Missing
        },
        if vulkan_ok {
            None
        } else {
            Some(gpu_guidance_text(platform))
        },
        true,
        None,
    )
}

/// The llama-server smoke-test row.
pub open spec fn llama_row(llama_server_ok: bool, llama_server_msg: Seq<char>) -> CheckView {
    (
        "llama_server"@,
        "llama-server binary"@,
        if llama_server_ok {
            PrerequisiteStatus::Satisfied
        } else {
            PrerequisiteStatus::Missing
        },
        if llama_server_ok {
            None
        } else {
            Some(llama_server_msg + llama_guidance_suffix())
        },
        true,
        None,
    )
}

/// Rows for these detection results: VCRedist (Windows only), GPU,
/// llama-server, in that order.
pub open spec fn rows_for(
    platform: Seq<char>,
    vcredist_present: bool,
    vulkan_ok: bool,
    llama_server_ok: bool,
    llama_server_msg: Seq<char>,
) -> Seq<CheckView> {
    if platform == "windows"@ {
        seq![
            vcredist_row(vcredist_present, llama_server_ok),
            gpu_row(platform, vulkan_ok),
            llama_row(llama_server_ok, llama_server_msg),
        ]
    } else {
        seq![gpu_row(platform, vulkan_ok), llama_row(llama_server_ok, llama_server_msg)]
    }
}

/// Rows for `input`.
pub open spec fn expected_rows(input: PrerequisiteInputs) -> Seq<CheckView> {
    rows_for(
        input.platform@,
        input.vcredist_present,
        input.vulkan_ok,
        input.llama_server_ok,
        input.llama_server_msg@,
    )
}

fn vcredist_check(input: &PrerequisiteInputs) -> (r: PrerequisiteCheck)
    ensures
        check_view(r) == vcredist_row(input.vcredist_present, input.llama_server_ok),
{
    let (status, guidance) = if input.vcredist_present && input.llama_server_ok {
        (PrerequisiteStatus::Satisfied, None)
    } else if input.vcredist_present && !input.llama_server_ok {
        (
            PrerequisiteStatus::Degraded,
            Some(
                owned(
                    "Visual C++ Runtime is present but llama-server still fails to start. Update VCRedist 2022 x64 from Microsoft, or use the optional in-app helper (documented exception to detect+suggest).",
                ),
            ),
        )
    } else {
        (
            PrerequisiteStatus::Missing,
            Some(
                owned(
                    "Install Visual C++ Redistributable 2022 x64 from https://learn.microsoft.com/en-us/cpp/windows/latest-supported-vc-redist (or use the optional in-app helper \u{2014} documented exception).",
                ),
            ),
        )
    };
    PrerequisiteCheck {
        id: owned("vcredist"),
        label: owned("Visual C++ Runtime 2022"),
        status,
        guidance,
        applicable: true,
        install_helper_exception: Some(
            owned(
                "install_vcredist downloads and silently runs the Microsoft VCRedist installer. Prefer detect+suggest; helper retained temporarily for Windows Guest path.",
            ),
        ),
    }
}

fn gpu_check(input: &PrerequisiteInputs) -> (r: PrerequisiteCheck)
    ensures
        check_view(r) == gpu_row(input.platform@, input.vulkan_ok),
{
    let is_macos = str_eq(input.platform.as_str(), "macos");
    let is_windows = str_eq(input.platform.as_str(), "windows");
    let label = if is_macos {
        owned("Metal / GPU")
    } else {
        owned("Vulkan Runtime")
    };
    let guidance_text: &str = if is_macos {
        "GPU stack not detected. Ensure macOS Metal is available (system default)."
    } else if is_windows {
        "Install or update GPU drivers (AMD / Nvidia / Intel) that include Vulkan support."
    } else {
        "Install a Vulkan driver package for your GPU, e.g. mesa-vulkan-drivers, amdvlk, or the Nvidia proprietary driver. The Setup Wizard will not run a package manager."
    };
    PrerequisiteCheck {
        id: owned("vulkan"),
        label,
        status: if input.vulkan_ok {
            PrerequisiteStatus::Satisfied
        } else {
            PrerequisiteStatus::Missing
        },
        guidance: if input.vulkan_ok {
            None
        } else {
            Some(owned(guidance_text))
        },
        applicable: true,
        install_helper_exception: None,
    }
}

fn llama_check(input: &PrerequisiteInputs) -> (r: PrerequisiteCheck)
    ensures
        check_view(r) == llama_row(input.llama_server_ok, input.llama_server_msg@),
{
    PrerequisiteCheck {
        id: owned("llama_server"),
        label: owned("llama-server binary"),
        status: if input.llama_server_ok {
            PrerequisiteStatus::Satisfied
        } else {
            PrerequisiteStatus::Missing
        },
        guidance: if input.llama_server_ok {
            None
        } else {
            Some(
                concat2(
                    input.llama_server_msg.as_str(),
                    ". Open Setup repair to re-download app-managed artifacts if the binary is missing.",
                ),
            )
        },
        applicable: true,
        install_helper_exception: None,
    }
}

/// Evaluates the prerequisite rows for the detection results in `input`.
pub fn evaluate_prerequisites(input: &PrerequisiteInputs) -> (r: PrerequisiteReport)
    ensures
        r.platform@ == input.platform@,
        r.checks@.map_values(|c: PrerequisiteCheck| check_view(c)) == expected_rows(*input),
{
    let mut checks: Vec<PrerequisiteCheck> = Vec::new();
    let is_windows = str_eq(input.platform.as_str(), "windows");
    if is_windows {
        checks.push(vcredist_check(input));
    }
    checks.push(gpu_check(input));
    checks.push(llama_check(input));
    assert(checks@.map_values(|c: PrerequisiteCheck| check_view(c)) =~= expected_rows(*input));
    PrerequisiteReport { platform: input.platform.clone(), checks }
}

/// Rows for live detection results supplied by the caller.
pub fn report_from_live(
    platform: &str,
    vcredist_present: bool,
    vulkan_ok: bool,
    llama_server_ok: bool,
    llama_server_msg: String,
) -> (r: PrerequisiteReport)
    ensures
        r.platform@ == platform@,
        r.checks@.map_values(|c: PrerequisiteCheck| check_view(c)) == rows_for(
            platform@,
            vcredist_present,
            vulkan_ok,
            llama_server_ok,
            llama_server_msg@,
        ),
{
    let input = PrerequisiteInputs {
        platform: owned(platform),
        vcredist_present,
        vulkan_ok,
        llama_server_ok,
        llama_server_msg,
    };
    evaluate_prerequisites(&input)
}

} // verus!

verus! {

/// Legacy dependency summary kept for the existing UI.
#[derive(Debug, Clone)]
pub struct SystemDeps {
    pub platform: String,
    pub vcredist_ok: bool,
    pub vulkan_ok: bool,
    pub llama_server_ok: bool,
    pub llama_server_msg: String,
    /// The structured rows.
    pub prerequisites: Vec<PrerequisiteCheck>,
}

/// Index of the first row with id `id`.
pub open spec fn first_row(rows: Seq<CheckView>, id: Seq<char>) -> Option<int>
    decreases rows.len(),
{
    if rows.len() == 0 {
        None
    } else if rows[0].0 == id {
        Some(0)
    } else {
        match first_row(rows.drop_first(), id) {
            Some(k) => Some(k + 1),
            None => None,
        }
    }
}

proof fn lemma_first_row(rows: Seq<CheckView>, id: Seq<char>)
    ensures
        match first_row(rows, id) {
            Some(k) => 0 <= k < rows.len() && rows[k].0 == id && forall|j: int|
                0 <= j < k ==> rows[j].0 != id,
            None => forall|j: int| 0 <= j < rows.len() ==> rows[j].0 != id,
        },
    decreases rows.len(),
{
    if rows.len() > 0 && rows[0].0 != id {
        lemma_first_row(rows.drop_first(), id);
        assert forall|j: int| 0 < j < rows.len() implies rows[j] == rows.drop_first()[j - 1] by {}
    }
}

/// Whether the first row with id `id` is satisfied; `default` when there is none.
pub open spec fn row_ok(rows: Seq<CheckView>, id: Seq<char>, default: bool) -> bool {
    match first_row(rows, id) {
        Some(k) => rows[k].2 == PrerequisiteStatus::Satisfied,
        None => default,
    }
}

fn find_row_ok(checks: &Vec<PrerequisiteCheck>, id: &str, default: bool) -> (r: bool)
    ensures
        r == row_ok(checks@.map_values(|c: PrerequisiteCheck| check_view(c)), id@, default),
{
    let ghost rows = checks@.map_values(|c: PrerequisiteCheck| check_view(c));
    proof {
        lemma_first_row(rows, id@);
    }
    let mut i: usize = 0;
    while i < checks.len()
        invariant
            rows == checks@.map_values(|c: PrerequisiteCheck| check_view(c)),
            i <= checks@.len(),
            forall|j: int| 0 <= j < i ==> rows[j].0 != id@,
        decreases checks@.len() - i,
    {
        assert(rows[i as int] == check_view(checks@[i as int]));
        if str_eq(checks[i].id.as_str(), id) {
            assert(first_row(rows, id@) == Some(i as int)) by {
                lemma_first_row(rows, id@);
                match first_row(rows, id@) {
                    Some(k) => {
                        if k < i {
                        } else if k > i {
                        }
                    },
                    None => {},
                }
            }
            return checks[i].status == PrerequisiteStatus::Satisfied;
        }
        i = i + 1;
    }
    default
}

impl SystemDeps {
    /// Legacy summary of a report: VCRedist counts as fine when its row is
    /// absent (non-Windows); GPU and llama-server count as failed when absent.
    pub fn from_report(report: PrerequisiteReport, llama_server_msg: String) -> (r: Self)
        ensures
            ({
                let rows = report.checks@.map_values(|c: PrerequisiteCheck| check_view(c));
                &&& r.vcredist_ok == row_ok(rows, "vcredist"@, true)
                &&& r.vulkan_ok == row_ok(rows, "vulkan"@, false)
                &&& r.llama_server_ok == row_ok(rows, "llama_server"@, false)
            }),
            r.platform@ == report.platform@,
            r.llama_server_msg@ == llama_server_msg@,
            r.prerequisites@ == report.checks@,
    {
        let vcredist_ok = find_row_ok(&report.checks, "vcredist", true);
        let vulkan_ok = find_row_ok(&report.checks, "vulkan", false);
        let llama_server_ok = find_row_ok(&report.checks, "llama_server", false);
        SystemDeps {
            platform: report.platform,
            vcredist_ok,
            vulkan_ok,
            llama_server_ok,
            llama_server_msg,
            prerequisites: report.checks,
        }
    }
}

/// Rows are platform-aware and self-explaining: the VCRedist row appears
/// exactly on Windows and is the only row offering an install helper; every
/// row applies to the platform; a row carries guidance exactly when it is not
/// satisfied.
pub proof fn law_prerequisite_rows(
    platform: Seq<char>,
    vcredist_present: bool,
    vulkan_ok: bool,
    llama_server_ok: bool,
    llama_server_msg: Seq<char>,
)
    ensures
        ({
            let rows = rows_for(platform, vcredist_present, vulkan_ok, llama_server_ok, llama_server_msg);
            &&& (exists|i: int| 0 <= i < rows.len() && (#[trigger] rows[i]).0 == "vcredist"@)
                <==> platform == "windows"@
            &&& forall|i: int|
                0 <= i < rows.len() ==> (#[trigger] rows[i]).4 && (rows[i].3 is Some <==> rows[i].2
                    != PrerequisiteStatus::Satisfied) && (rows[i].5 is Some <==> rows[i].0
                    == "vcredist"@)
        }),
{
    reveal_strlit("vcredist");
    reveal_strlit("vulkan");
    reveal_strlit("llama_server");
    let rows = rows_for(platform, vcredist_present, vulkan_ok, llama_server_ok, llama_server_msg);
    if platform == "windows"@ {
        assert(rows[0].0 == "vcredist"@);
    } else {
        assert(rows.len() == 2);
        assert("vulkan"@.len() != "vcredist"@.len());
        assert("llama_server"@ != "vcredist"@) by {
            assert("llama_server"@[0] != "vcredist"@[0]);
        }
    }
    assert("vulkan"@ != "vcredist"@) by {
        assert("vulkan"@.len() != "vcredist"@.len());
    }
    assert("llama_server"@ != "vcredist"@) by {
        assert("llama_server"@[0] != "vcredist"@[0]);
    }
}

/// The legacy summary agrees with the detection results it was evaluated
/// from: GPU and llama-server flags come back unchanged, and VCRedist counts
/// as fine off Windows and, on Windows, exactly when it is present and
/// llama-server starts.
pub proof fn law_summary_round_trip(
    platform: Seq<char>,
    vcredist_present: bool,
    vulkan_ok: bool,
    llama_server_ok: bool,
    llama_server_msg: Seq<char>,
)
    ensures
        ({
            let rows = rows_for(platform, vcredist_present, vulkan_ok, llama_server_ok, llama_server_msg);
            &&& row_ok(rows, "vulkan"@, false) == vulkan_ok
            &&& row_ok(rows, "llama_server"@, false) == llama_server_ok
            &&& row_ok(rows, "vcredist"@, true) == (platform != "windows"@ || (vcredist_present
                && llama_server_ok))
        }),
{
    reveal_strlit("vcredist");
    reveal_strlit("vulkan");
    reveal_strlit("llama_server");
    let rows = rows_for(platform, vcredist_present, vulkan_ok, llama_server_ok, llama_server_msg);
    assert("vulkan"@ != "vcredist"@) by {
        assert("vulkan"@.len() != "vcredist"@.len());
    }
    assert("llama_server"@ != "vcredist"@) by {
        assert("llama_server"@[0] != "vcredist"@[0]);
    }
    assert("llama_server"@ != "vulkan"@) by {
        assert("llama_server"@[0] != "vulkan"@[0]);
    }
    if platform == "windows"@ {
        assert(first_row(rows.drop_first(), "vulkan"@) == Some(0int));
        assert(rows.drop_first().drop_first()[0].0 == "llama_server"@);
        assert(first_row(rows.drop_first().drop_first(), "llama_server"@) == Some(0int));
        assert(first_row(rows.drop_first(), "llama_server"@) == Some(1int));
    } else {
        assert(first_row(rows.drop_first(), "llama_server"@) == Some(0int));
        assert(first_row(rows.drop_first().drop_first(), "vcredist"@) is None);
        assert(first_row(rows.drop_first(), "vcredist"@) is None);
    }
}

} // verus!
