//! The hardware phase: the PowerShell script that applies the boot,
//! kernel, memory, device-interrupt and scheduling tweaks, and the reading of
//! the log it writes.
use vstd::prelude::*;
use vstd::string::StringExecFns;
use vstd::utf8::{decode_utf8, encode_utf8, is_char_boundary};

use crate::console::{color_code, color_code_spec, line, reset_code, reset_code_spec, Color, StatusLine};
use crate::plan::{op_views, Op, OpView};
use crate::text::{
    byte_len, chars_of, content_lines, content_lines_of, decimal, eq_ignore_ascii_case,
    eq_ignore_case, push_char, push_decimal, string_of_range, views,
};

verus! {

/// The hardware script up to the place where the log path goes.
pub const HARDWARE_SCRIPT_HEAD: &'static str = r#"
$ErrorActionPreference = 'SilentlyContinue'
$ProgressPreference = 'SilentlyContinue'
$LogPath = ""#;

/// The hardware script after the log path.
pub const HARDWARE_SCRIPT_TAIL: &'static str = r#""

function Add-Log {
    param([string]$Kind, [string]$Category, [string]$Message, [string]$Status = 'OK')
    $line = "$Kind|$Category|$Status|$Message"
    Add-Content -LiteralPath $LogPath -Value $line -Encoding UTF8
}

function Safe-Name {
    param($Value)
    if ($null -eq $Value) { return '' }
    return ([string]$Value).Replace("`r", " ").Replace("`n", " ").Trim()
}

Remove-Item -LiteralPath $LogPath -Force -ErrorAction SilentlyContinue
New-Item -ItemType File -Path $LogPath -Force | Out-Null

# ── BCD Optimizations ──────────────────────────────────────────────────────
try {
    bcdedit /set disabledynamictick yes | Out-Null
    Add-Log 'INFO' 'BCD' 'disabledynamictick = yes'
} catch {
    Add-Log 'WARN' 'BCD' 'No se pudo aplicar disabledynamictick' 'WARN'
}

try {
    bcdedit /set useplatformtick yes | Out-Null
    Add-Log 'INFO' 'BCD' 'useplatformtick = yes'
} catch {
    Add-Log 'WARN' 'BCD' 'No se pudo aplicar useplatformtick' 'WARN'
}

try {
    bcdedit /set useplatformclock no | Out-Null
    Add-Log 'INFO' 'BCD' 'useplatformclock = no (Reloj TSC forzado)'
} catch {
    Add-Log 'WARN' 'BCD' 'No se pudo aplicar useplatformclock' 'WARN'
}

try {
    # ── Desactivar Paginación de 5 Niveles (Address57 translation overhead bypass)
    bcdedit /set linearaddress57 OptOut | Out-Null
    Add-Log 'INFO' 'BCD' 'linearaddress57 = OptOut (Paginacion de 5 niveles desactivada)'
} catch {
    Add-Log 'WARN' 'BCD' 'No se pudo aplicar linearaddress57' 'WARN'
}

try {
    # ── Desactivar inicio de Virtual Secure Mode (VBS/Core Isolation boot bypass)
    bcdedit /set vsmlaunchtype Off | Out-Null
    Add-Log 'INFO' 'BCD' 'vsmlaunchtype = Off (VBS/Core Isolation desactivado al inicio)'
} catch {
    Add-Log 'WARN' 'BCD' 'No se pudo desactivar vsmlaunchtype' 'WARN'
}

try {
    bcdedit /set nx OptIn | Out-Null
    Add-Log 'INFO' 'BCD' 'DEP = OptIn'
} catch {
    Add-Log 'WARN' 'BCD' 'No se pudo ajustar DEP' 'WARN'
}

try {
    bcdedit /set x2apicpolicy Enable | Out-Null
    Add-Log 'INFO' 'BCD' 'x2apicpolicy = Enable (Extended APIC habilitado)'
} catch {
    Add-Log 'WARN' 'BCD' 'No se pudo aplicar x2apicpolicy' 'WARN'
}

try {
    bcdedit /set tscsyncpolicy Enhanced | Out-Null
    Add-Log 'INFO' 'BCD' 'tscsyncpolicy = Enhanced (Sincronizacion TSC forzada)'
} catch {
    Add-Log 'WARN' 'BCD' 'No se pudo aplicar tscsyncpolicy' 'WARN'
}

try {
    bcdedit /set usephysicaldestination yes | Out-Null
    Add-Log 'INFO' 'BCD' 'usephysicaldestination = yes (APIC direccionamiento fisico)'
} catch {
    Add-Log 'WARN' 'BCD' 'No se pudo aplicar usephysicaldestination' 'WARN'
}

try {
    bcdedit /set firstmegabytepolicy UseAll | Out-Null
    Add-Log 'INFO' 'BCD' 'firstmegabytepolicy = UseAll (Primer megabyte de RAM activo)'
} catch {
    Add-Log 'WARN' 'BCD' 'No se pudo aplicar firstmegabytepolicy' 'WARN'
}

# ── Windows Memory Management & Compression Tuning ─────────────────────────
try {
    # ── Desactivar compresión de memoria (MMAgent Memory Compression Off)
    Disable-MMAgent -MemoryCompression | Out-Null
    Add-Log 'INFO' 'KERNEL' 'MemoryCompression = OFF (Compresion de RAM desactivada)'
} catch {
    Add-Log 'WARN' 'KERNEL' 'No se pudo desactivar la compresion de memoria' 'WARN'
}

try {
    # ── Desactivar VBS e Integridad de Memoria (HVCI) en el Registro
    $vbsPath = "HKLM:\System\CurrentControlSet\Control\DeviceGuard"
    if (!(Test-Path $vbsPath)) { New-Item -Path $vbsPath -Force | Out-Null }
    New-ItemProperty -Path $vbsPath -Name "EnableVirtualizationBasedSecurity" -Value 0 -PropertyType DWord -Force | Out-Null
    
    $hvciPath = "HKLM:\System\CurrentControlSet\Control\DeviceGuard\Scenarios\HypervisorEnforcedCodeIntegrity"
    if (!(Test-Path $hvciPath)) { New-Item -Path $hvciPath -Force | Out-Null }
    New-ItemProperty -Path $hvciPath -Name "Enabled" -Value 0 -PropertyType DWord -Force | Out-Null
    Add-Log 'INFO' 'KERNEL' 'HVCI / VBS deshabilitado en Registro'
} catch {
    Add-Log 'WARN' 'KERNEL' 'No se pudo deshabilitar VBS/HVCI en el Registro' 'WARN'
}

try {
    # ── Forzar Kernel y Controladores (Drivers) a RAM física (DisablePagingExecutive)
    $mmPath = "HKLM:\System\CurrentControlSet\Control\Session Manager\Memory Management"
    New-ItemProperty -Path $mmPath -Name "DisablePagingExecutive" -Value 1 -PropertyType DWord -Force | Out-Null
    Add-Log 'INFO' 'KERNEL' 'DisablePagingExecutive = 1 (Kernel y Controladores en RAM)'
} catch {
    Add-Log 'WARN' 'KERNEL' 'No se pudo aplicar DisablePagingExecutive' 'WARN'
}

# ── Pagefile Optimization ──────────────────────────────────────────────────
try {
    $ramBytes = (Get-CimInstance Win32_ComputerSystem).TotalPhysicalMemory
    $ramGB = [Math]::Round($ramBytes / 1GB)
    
    if ($ramGB -ge 32) { $size = 4096 }
    elseif ($ramGB -ge 16) { $size = 8192 }
    else { $size = 12288 }
    
    $cs = Get-CimInstance Win32_ComputerSystem
    if ($cs.AutomaticManagedPagefile) {
        $cs.AutomaticManagedPagefile = $false
        Set-CimInstance -CimInstance $cs -ErrorAction Stop | Out-Null
    }
    
    $pf = Get-CimInstance Win32_PageFileSetting
    if ($pf) {
        $pf.InitialSize = $size
        $pf.MaximumSize = $size
        Set-CimInstance -CimInstance $pf -ErrorAction Stop | Out-Null
    } else {
        New-CimInstance -ClassName Win32_PageFileSetting -Property @{ Name = 'C:\pagefile.sys'; InitialSize = $size; MaximumSize = $size } -ErrorAction Stop | Out-Null
    }
    Add-Log 'INFO' 'PAGING' ("Pagefile estatico optimizado a " + $size + " MB (RAM: " + $ramGB + " GB)")
} catch {
    Add-Log 'WARN' 'PAGING' 'No se pudo configurar el archivo de paginacion estatico' 'WARN'
}

# ── NTFS File System Optimization ──────────────────────────────────────────
try {
    fsutil behavior set disablelastaccess 1 | Out-Null
    fsutil behavior set disable8dot3 1 | Out-Null
    fsutil behavior set memoryusage 2 | Out-Null
    
    $ramBytes = (Get-CimInstance Win32_ComputerSystem).TotalPhysicalMemory
    $ramGB = [Math]::Round($ramBytes / 1GB)
    if ($ramGB -ge 32) { $mftZoneVal = 4 }
    elseif ($ramGB -ge 16) { $mftZoneVal = 3 }
    else { $mftZoneVal = 2 }
    
    fsutil behavior set mftzone $mftZoneVal | Out-Null
    Add-Log 'INFO' 'NTFS' ("NTFS optimizado: LastAccess=OFF, 8dot3=OFF, MemoryUsage=2, MftZone=" + $mftZoneVal)
} catch {
    Add-Log 'WARN' 'NTFS' 'No se pudieron aplicar todas las optimizaciones NTFS' 'WARN'
}

# ── CPU Kernel Scheduling (Win32PrioritySeparation = 38) ───────────────────
try {
    Set-ItemProperty -Path "HKLM:\System\CurrentControlSet\Control\PriorityControl" -Name "Win32PrioritySeparation" -Value 38 | Out-Null
    Add-Log 'INFO' 'KERNEL' 'Win32PrioritySeparation optimizado a 38 (0x26 - Foreground boost)'
} catch {
    Add-Log 'WARN' 'KERNEL' 'No se pudo aplicar Win32PrioritySeparation' 'WARN'
}

# ── Speculative Execution Control (Spectre/Meltdown mitigations bypass) ────
try {
    $path = "HKLM:\SYSTEM\CurrentControlSet\Control\Session Manager\Memory Management"
    New-ItemProperty -Path $path -Name "FeatureSettingsOverride" -Value 3 -PropertyType DWord -Force | Out-Null
    New-ItemProperty -Path $path -Name "FeatureSettingsOverrideMask" -Value 3 -PropertyType DWord -Force | Out-Null
    Add-Log 'INFO' 'KERNEL' 'Mitigaciones de CPU (Spectre/Meltdown) desactivadas para rendimiento'
} catch {
    Add-Log 'WARN' 'KERNEL' 'No se pudieron desactivar las mitigaciones de CPU' 'WARN'
}

# ── GPU Hardware-Accelerated Scheduling (HAGS) & TDR Delay ──────────────────
try {
    $path = "HKLM:\System\CurrentControlSet\Control\GraphicsDrivers"
    New-ItemProperty -Path $path -Name "HwSchMode" -Value 2 -PropertyType DWord -Force | Out-Null
    New-ItemProperty -Path $path -Name "TdrDelay" -Value 10 -PropertyType DWord -Force | Out-Null
    Add-Log 'INFO' 'KERNEL' 'GPU Tuning: HAGS forzado y TdrDelay fijados'
} catch {
    Add-Log 'WARN' 'KERNEL' 'No se pudieron aplicar ajustes avanzados de GPU' 'WARN'
}


# ── MSI Mode for Devices ───────────────────────────────────────────────────
function Enable-MsiForDevice {
    param(
        [string]$PnpId,
        [string]$Name,
        [string]$Type,
        [bool]$IsGpu
    )

    $PnpId = Safe-Name $PnpId
    $Name = Safe-Name $Name
    if ([string]::IsNullOrWhiteSpace($PnpId) -or [string]::IsNullOrWhiteSpace($Name)) { return }

    $base = 'HKLM:\SYSTEM\CurrentControlSet\Enum\' + $PnpId + '\Device Parameters\Interrupt Management'
    $msiPath = $base + '\MessageSignaledInterruptProperties'

    try {
        if (!(Test-Path $msiPath)) { New-Item -Path $msiPath -Force | Out-Null }
        New-ItemProperty -Path $msiPath -Name 'MSISupported' -Value 1 -PropertyType DWord -Force | Out-Null
        Add-Log 'HW' $Type ('MSI habilitado -> ' + $Name)
    } catch {
        Add-Log 'WARN' $Type ('No se pudo habilitar MSI -> ' + $Name) 'WARN'
    }

    if ($IsGpu) {
        $affPath = $base + '\Affinity Policy'
        try {
            if (!(Test-Path $affPath)) { New-Item -Path $affPath -Force | Out-Null }
            New-ItemProperty -Path $affPath -Name 'DevicePriority' -Value 3 -PropertyType DWord -Force | Out-Null
            New-ItemProperty -Path $affPath -Name 'DevicePolicy' -Value 3 -PropertyType DWord -Force | Out-Null

            $cores = @(Get-CimInstance Win32_Processor | Select-Object -ExpandProperty NumberOfLogicalProcessors | Where-Object { $_ -gt 0 } | Measure-Object -Sum).Sum
            if ($cores -gt 1) {
                $mask = [uint64](([math]::Pow(2, $cores)) - 2)
                $bytes = [BitConverter]::GetBytes($mask)
                New-ItemProperty -Path $affPath -Name 'AssignmentSetOverride' -Value $bytes -PropertyType Binary -Force | Out-Null
                Add-Log 'HW' $Type ('Afinidad IRQ aplicada (mask=0x' + $mask.ToString('X') + ') -> ' + $Name)
            } else {
                Add-Log 'WARN' $Type ('No se aplico afinidad IRQ por nucleos insuficientes -> ' + $Name) 'WARN'
            }
        } catch {
            Add-Log 'WARN' $Type ('No se pudo aplicar prioridad/afinidad GPU -> ' + $Name) 'WARN'
        }
    }
}

# ── GPUs ────────────────────────────────────────────────────────────────────
try {
    $gpus = Get-CimInstance Win32_VideoController | Select-Object PNPDeviceID, Name
    foreach ($gpu in $gpus) {
        Enable-MsiForDevice -PnpId $gpu.PNPDeviceID -Name $gpu.Name -Type 'GPU' -IsGpu $true
    }
} catch {
    Add-Log 'WARN' 'GPU' 'No se pudieron enumerar GPUs' 'WARN'
}

# ── Storage Controllers ────────────────────────────────────────────────────
try {
    $storageControllers = Get-PnpDevice -PresentOnly | Where-Object {
        $_.Class -in @('SCSIAdapter','HDC','IDE','Storage')
    } | Select-Object InstanceId, FriendlyName, Class

    foreach ($ctrl in $storageControllers) {
        $nm = if ([string]::IsNullOrWhiteSpace($ctrl.FriendlyName)) { $ctrl.InstanceId } else { $ctrl.FriendlyName }
        Enable-MsiForDevice -PnpId $ctrl.InstanceId -Name $nm -Type 'Storage' -IsGpu $false
    }
} catch {
    Add-Log 'WARN' 'Storage' 'No se pudieron enumerar controladores de almacenamiento' 'WARN'
}

# ── NICs Fisicas ───────────────────────────────────────────────────────────
try {
    $nics = Get-NetAdapter -Physical -ErrorAction SilentlyContinue | Where-Object { $_.InterfaceDescription -notmatch 'VirtualBox|VMware|Virtual|Hyper-V|vEthernet|Loopback|TAP' -and $_.Name -notmatch 'VirtualBox|VMware|Virtual|Hyper-V|vEthernet|Loopback|TAP' } | Select-Object Name, InterfaceDescription, PnPDeviceID
    foreach ($nic in $nics) {
        $nm = if ([string]::IsNullOrWhiteSpace($nic.InterfaceDescription)) { $nic.Name } else { $nic.InterfaceDescription }
        Enable-MsiForDevice -PnpId $nic.PnPDeviceID -Name $nm -Type 'NIC' -IsGpu $false
    }
} catch {
    Add-Log 'WARN' 'NIC' 'No se pudieron enumerar NICs fisicas' 'WARN'
}

# ── USB Controllers ────────────────────────────────────────────────────────
try {
    $usbControllers = Get-PnpDevice -PresentOnly | Where-Object {
        $_.Class -eq 'USB'
    } | Select-Object InstanceId, FriendlyName

    foreach ($usb in $usbControllers) {
        $nm = if ([string]::IsNullOrWhiteSpace($usb.FriendlyName)) { $usb.InstanceId } else { $usb.FriendlyName }
        Enable-MsiForDevice -PnpId $usb.InstanceId -Name $nm -Type 'USB' -IsGpu $false
    }
} catch {
    Add-Log 'WARN' 'USB' 'No se pudieron enumerar controladores USB' 'WARN'
}

# ── DWM MMCSS ──────────────────────────────────────────────────────────────
try {
    Add-Type -TypeDefinition @'
using System.Runtime.InteropServices;
public static class DwmBridge {
    [DllImport("dwmapi.dll", PreserveSig=false)]
    public static extern void DwmEnableMMCSS(bool enable);
}
'@
    [DwmBridge]::DwmEnableMMCSS($true)
    Add-Log 'INFO' 'DWM' 'DwmEnableMMCSS(true) ejecutado'
} catch {
    Add-Log 'WARN' 'DWM' 'No se pudo invocar DwmEnableMMCSS' 'WARN'
}

# ── MMCSS Network Throttling ───────────────────────────────────────────────
try {
    $mmcssPath = 'HKLM:\SOFTWARE\Microsoft\Windows NT\CurrentVersion\Multimedia\SystemProfile'
    if (Test-Path $mmcssPath) {
        New-ItemProperty -Path $mmcssPath -Name 'NetworkThrottlingIndex' -Value 0xFFFFFFFF -PropertyType DWord -Force | Out-Null
        New-ItemProperty -Path $mmcssPath -Name 'SystemResponsiveness' -Value 0 -PropertyType DWord -Force | Out-Null
        Add-Log 'INFO' 'MMCSS' 'NetworkThrottlingIndex=FFFFFFFF, SystemResponsiveness=0'
    }
} catch {
    Add-Log 'WARN' 'MMCSS' 'No se pudo ajustar MMCSS' 'WARN'
}

# ── GPU Priority via MMCSS Tasks ───────────────────────────────────────────
try {
    $gpuPath = 'HKLM:\SOFTWARE\Microsoft\Windows NT\CurrentVersion\Multimedia\SystemProfile\Tasks\Games'
    if (!(Test-Path $gpuPath)) { New-Item -Path $gpuPath -Force | Out-Null }
    New-ItemProperty -Path $gpuPath -Name 'GPU Priority' -Value 8 -PropertyType DWord -Force | Out-Null
    New-ItemProperty -Path $gpuPath -Name 'Priority' -Value 6 -PropertyType DWord -Force | Out-Null
    New-ItemProperty -Path $gpuPath -Name 'Scheduling Category' -Value 'High' -PropertyType String -Force | Out-Null
    New-ItemProperty -Path $gpuPath -Name 'SFIO Priority' -Value 'High' -PropertyType String -Force | Out-Null
    Add-Log 'INFO' 'MMCSS' 'GPU Priority y Games Task optimizados'
} catch {
    Add-Log 'WARN' 'MMCSS' 'No se pudo ajustar GPU Priority' 'WARN'
}

# ── Global Timer Resolution & Power Throttling Windows 10/11 ──────────────
try {
    $kernelPath = 'HKLM:\SYSTEM\CurrentControlSet\Control\Session Manager\kernel'
    if (!(Test-Path $kernelPath)) { New-Item -Path $kernelPath -Force | Out-Null }
    New-ItemProperty -Path $kernelPath -Name 'GlobalTimerResolutionRequests' -Value 1 -PropertyType DWord -Force | Out-Null
    Add-Log 'INFO' 'BCD' 'GlobalTimerResolutionRequests = 1'
} catch {
    Add-Log 'WARN' 'BCD' 'No se pudo aplicar GlobalTimerResolutionRequests' 'WARN'
}

try {
    $powerPath = 'HKLM:\SYSTEM\CurrentControlSet\Control\Power\PowerThrottling'
    if (!(Test-Path $powerPath)) { New-Item -Path $powerPath -Force | Out-Null }
    New-ItemProperty -Path $powerPath -Name 'PowerThrottlingOff' -Value 1 -PropertyType DWord -Force | Out-Null
    Add-Log 'INFO' 'POWER' 'PowerThrottlingOff = 1'
} catch {
    Add-Log 'WARN' 'POWER' 'No se pudo desactivar Power Throttling' 'WARN'
}

try {
    $powerPath = 'HKLM:\SYSTEM\CurrentControlSet\Control\Power'
    if (!(Test-Path $powerPath)) { New-Item -Path $powerPath -Force | Out-Null }
    New-ItemProperty -Path $powerPath -Name 'DisableInterruptSteering' -Value 1 -PropertyType DWord -Force | Out-Null
    Add-Log 'INFO' 'POWER' 'DisableInterruptSteering = 1 (Interrupt steering desactivado)'
} catch {
    Add-Log 'WARN' 'POWER' 'No se pudo aplicar DisableInterruptSteering' 'WARN'
}
"#;

/// `s` with every backslash doubled, as a path must be written inside a
/// double-quoted PowerShell string here.
pub open spec fn escaped(s: Seq<char>) -> Seq<char>
    decreases s.len(),
{
    if s.len() == 0 {
        Seq::empty()
    } else if s.last() == '\\' {
        escaped(s.drop_last()) + seq!['\\', '\\']
    } else {
        escaped(s.drop_last()).push(s.last())
    }
}

/// `s` with every backslash doubled.
pub fn escape_backslashes(s: &str) -> (e: String)
    ensures
        e@ == escaped(s@),
{
    let v = chars_of(s);
    let mut e = String::new();
    let mut i: usize = 0;
    while i < v.len()
        invariant
            i <= v.len(),
            v@ == s@,
            e@ == escaped(v@.take(i as int)),
        decreases v.len() - i,
    {
        let c = v[i];
        proof {
            assert(v@.take(i + 1).drop_last() =~= v@.take(i as int));
            assert(v@.take(i + 1).last() == c);
        }
        if c == '\\' {
            push_char(&mut e, '\\');
            push_char(&mut e, '\\');
            proof {
                assert(e@ =~= escaped(v@.take(i + 1)));
            }
        } else {
            push_char(&mut e, c);
        }
        i = i + 1;
    }
    proof {
        assert(v@.take(v.len() as int) =~= v@);
    }
    e
}

/// The hardware script that appends its log to `log_path`.
pub open spec fn hardware_script_spec(log_path: Seq<char>) -> Seq<char> {
    HARDWARE_SCRIPT_HEAD@ + escaped(log_path) + HARDWARE_SCRIPT_TAIL@
}

/// The hardware script that writes its log to `log_path`. Each log line
/// reads `kind|category|status|message`.
pub fn hardware_script(log_path: &str) -> (script: String)
    ensures
        script@ == hardware_script_spec(log_path@),
{
    let mut script = HARDWARE_SCRIPT_HEAD.to_owned();
    let e = escape_backslashes(log_path);
    script.append(e.as_str());
    script.append(HARDWARE_SCRIPT_TAIL);
    script
}

/// `prefix`, the process id `pid` and `suffix`: the name of a temporary
/// file private to this process.
pub open spec fn temp_file_name(prefix: Seq<char>, pid: u32, suffix: Seq<char>) -> Seq<char> {
    prefix + decimal(pid as nat) + suffix
}

/// The name of a temporary file of process `pid`.
pub fn temp_file(prefix: &str, pid: u32, suffix: &str) -> (name: String)
    ensures
        name@ == temp_file_name(prefix@, pid, suffix@),
{
    let mut name = prefix.to_owned();
    push_decimal(&mut name, pid as u64);
    name.append(suffix);
    name
}

// ---------------------------------------------------------------------------
// The log
// ---------------------------------------------------------------------------

/// The index of the first `c` in `s` at or after `from`.
pub open spec fn find_from(s: Seq<char>, c: char, from: int) -> Option<nat>
    decreases s.len() - from,
{
    if from < 0 || from >= s.len() {
        None
    } else if s[from] == c {
        Some(from as nat)
    } else {
        find_from(s, c, from + 1)
    }
}

/// The four fields of a log line, split at its first three `|`
/// (`splitn(4, '|')`); `None` when it has fewer than three.
pub open spec fn log_fields(l: Seq<char>) -> Option<(Seq<char>, Seq<char>, Seq<char>, Seq<char>)> {
    match find_from(l, '|', 0) {
        None => None,
        Some(a) => match find_from(l, '|', a as int + 1) {
            None => None,
            Some(b) => match find_from(l, '|', b as int + 1) {
                None => None,
                Some(c) => Some(
                    (
                        l.subrange(0, a as int),
                        l.subrange(a as int + 1, b as int),
                        l.subrange(b as int + 1, c as int),
                        l.subrange(c as int + 1, l.len() as int),
                    ),
                ),
            },
        },
    }
}

/// Longest message, in bytes, shown whole.
pub const MESSAGE_LIMIT: usize = 56;

/// Bytes of a longer message kept before the ellipsis.
pub const MESSAGE_KEPT: usize = 53;

/// A message as shown: messages over 56 bytes are cut to their first 53
/// bytes followed by `...`.
pub open spec fn shown_message(msg: Seq<char>) -> Seq<char> {
    if byte_len(msg) > 56 {
        decode_utf8(encode_utf8(msg).subrange(0, 53)) + "..."@
    } else {
        msg
    }
}

/// A message can be cut where needed: short enough, or with a character
/// boundary after its 53rd byte.
pub open spec fn message_cuttable(msg: Seq<char>) -> bool {
    byte_len(msg) > 56 ==> is_char_boundary(encode_utf8(msg), 53)
}

/// The description of a log entry of `kind` in `category`.
pub open spec fn entry_desc(kind: Seq<char>, category: Seq<char>, msg: Seq<char>) -> Seq<char> {
    if kind == "HW"@ {
        "MSI/IRQ -> ["@ + category + "] "@ + shown_message(msg)
    } else if kind == "WARN"@ {
        "Aviso ["@ + category + "] -> "@ + shown_message(msg)
    } else {
        "Aplicando ["@ + category + "] -> "@ + shown_message(msg)
    }
}

/// The status line of a log line, if it has four fields: its status reads
/// `OK` (applied) or `WARN` (a warning) in any ASCII case.
pub open spec fn log_entry(l: Seq<char>) -> Option<OpView> {
    match log_fields(l) {
        None => None,
        Some((kind, category, status, msg)) => Some(
            OpView::Show(
                line(
                    entry_desc(kind, category, msg),
                    eq_ignore_case(status, "OK"@),
                    eq_ignore_case(status, "WARN"@),
                ),
            ),
        ),
    }
}

/// The status lines of the given log lines, in order.
pub open spec fn log_entries(lines: Seq<Seq<char>>) -> Seq<OpView>
    decreases lines.len(),
{
    if lines.len() == 0 {
        Seq::empty()
    } else {
        match log_entry(lines.last()) {
            Some(o) => log_entries(lines.drop_last()).push(o),
            None => log_entries(lines.drop_last()),
        }
    }
}

/// The message of log line `l`, if it has one, can be cut where needed.
pub open spec fn line_cuttable(l: Seq<char>) -> bool {
    match log_fields(l) {
        Some(f) => message_cuttable(f.3),
        None => true,
    }
}

/// Every message of the given log lines can be cut where needed.
pub open spec fn log_lines_cuttable(lines: Seq<Seq<char>>) -> bool {
    forall|i: int| 0 <= i < lines.len() ==> line_cuttable(#[trigger] lines[i])
}

/// Every message of the log `log` can be cut where needed.
pub open spec fn log_cuttable(log: Seq<char>) -> bool {
    log_lines_cuttable(content_lines(log))
}

/// The note printed when the log holds no entry.
pub open spec fn no_output_note() -> Seq<char> {
    color_code_spec(Color::Yellow) + "  [ INFO ] Sin salida en el motor de hardware.\n"@ + reset_code_spec()
}

/// What the hardware phase reports from its log: a status line for each
/// non-blank line with four fields, or a note when there is none.
pub open spec fn hardware_report_spec(log: Seq<char>) -> Seq<OpView> {
    let entries = log_entries(content_lines(log));
    if entries.len() == 0 {
        seq![OpView::Print(no_output_note())]
    } else {
        entries
    }
}

fn find_char(v: &Vec<char>, c: char, from: usize) -> (r: Option<usize>)
    requires
        from <= v.len(),
    ensures
        r matches Some(k) ==> find_from(v@, c, from as int) == Some(k as nat) && from <= k < v.len(),
        r is None ==> find_from(v@, c, from as int) is None,
{
    let mut i = from;
    while i < v.len()
        invariant
            from <= i <= v.len(),
            find_from(v@, c, i as int) == find_from(v@, c, from as int),
        decreases v.len() - i,
    {
        if v[i] == c {
            return Some(i);
        }
        i = i + 1;
    }
    None
}

/// The four fields of a log line.
pub fn split_log_fields(l: &str) -> (r: Option<(String, String, String, String)>)
    ensures
        match log_fields(l@) {
            None => r is None,
            Some(f) => r matches Some(g) && g.0@ == f.0 && g.1@ == f.1 && g.2@ == f.2 && g.3@ == f.3,
        },
{
    let v = chars_of(l);
    let a = match find_char(&v, '|', 0) {
        None => return None,
        Some(a) => a,
    };
    let b = match find_char(&v, '|', a + 1) {
        None => return None,
        Some(b) => b,
    };
    let c = match find_char(&v, '|', b + 1) {
        None => return None,
        Some(c) => c,
    };
    proof {
        assert(log_fields(l@) == Some(
            (
                v@.subrange(0, a as int),
                v@.subrange(a + 1, b as int),
                v@.subrange(b + 1, c as int),
                v@.subrange(c + 1, v@.len() as int),
            ),
        ));
    }
    Some(
        (
            string_of_range(&v, 0, a),
            string_of_range(&v, a + 1, b),
            string_of_range(&v, b + 1, c),
            string_of_range(&v, c + 1, v.len()),
        ),
    )
}

/// Whether `msg` can be cut where needed.
pub fn is_message_cuttable(msg: &str) -> (b: bool)
    ensures
        b == message_cuttable(msg@),
{
    msg.len() <= MESSAGE_LIMIT || msg.is_char_boundary(MESSAGE_KEPT)
}

/// `msg` as shown.
pub fn shorten_message(msg: &str) -> (s: String)
    requires
        message_cuttable(msg@),
    ensures
        s@ == shown_message(msg@),
{
    if msg.len() > MESSAGE_LIMIT {
        let (head, _) = msg.split_at(MESSAGE_KEPT);
        proof {
            vstd::utf8::encode_utf8_decode_utf8(head@);
            assert(encode_utf8(head@) =~= encode_utf8(msg@).subrange(0, 53));
        }
        let mut s = head.to_owned();
        s.append("...");
        s
    } else {
        msg.to_owned()
    }
}

/// The status-line step of one log line, if it has four fields.
pub fn hardware_log_entry(l: &str) -> (o: Option<Op>)
    requires
        line_cuttable(l@),
    ensures
        match log_entry(l@) {
            None => o is None,
            Some(v) => o matches Some(x) && x@ == v,
        },
{
    match split_log_fields(l) {
        None => None,
        Some((kind, category, status, msg)) => {
            let shown = shorten_message(msg.as_str());
            let mut desc = if eq_ignore_exact(kind.as_str(), "HW") {
                "MSI/IRQ -> [".to_owned()
            } else if eq_ignore_exact(kind.as_str(), "WARN") {
                "Aviso [".to_owned()
            } else {
                "Aplicando [".to_owned()
            };
            desc.append(category.as_str());
            if eq_ignore_exact(kind.as_str(), "HW") {
                desc.append("] ");
            } else {
                desc.append("] -> ");
            }
            desc.append(shown.as_str());
            let ok = eq_ignore_ascii_case(status.as_str(), "OK");
            let warn = eq_ignore_ascii_case(status.as_str(), "WARN");
            Some(Op::Show(StatusLine { desc, ok, warn }))
        },
    }
}

fn eq_ignore_exact(a: &str, b: &str) -> (r: bool)
    ensures
        r == (a@ == b@),
{
    let x = chars_of(a);
    let y = chars_of(b);
    if x.len() != y.len() {
        return false;
    }
    let mut i: usize = 0;
    while i < x.len()
        invariant
            x.len() == y.len(),
            x@ == a@,
            y@ == b@,
            forall|k: int| 0 <= k < i ==> a@[k] == b@[k],
        decreases x.len() - i,
    {
        if x[i] != y[i] {
            return false;
        }
        i = i + 1;
    }
    proof {
        assert(a@ =~= b@);
    }
    true
}

/// Whether every message in the log `log` can be cut where needed, so that
/// [`hardware_report`] may read it.
pub fn hardware_log_cuttable(log: &str) -> (b: bool)
    ensures
        b == log_cuttable(log@),
{
    let lines = content_lines_of(log);
    let mut i: usize = 0;
    while i < lines.len()
        invariant
            i <= lines.len(),
            views(lines@) == content_lines(log@),
            forall|k: int| 0 <= k < i ==> line_cuttable(#[trigger] views(lines@)[k]),
        decreases lines.len() - i,
    {
        proof {
            assert(views(lines@)[i as int] == lines@[i as int]@);
        }
        match split_log_fields(lines[i].as_str()) {
            Some((_, _, _, msg)) => {
                if !is_message_cuttable(msg.as_str()) {
                    proof {
                        assert(!line_cuttable(views(lines@)[i as int]));
                        assert(!log_lines_cuttable(views(lines@)));
                    }
                    return false;
                }
            },
            None => {},
        }
        i = i + 1;
    }
    true
}

/// The steps that report the hardware phase from its log `log`.
pub fn hardware_report(log: &str) -> (ops: Vec<Op>)
    requires
        log_cuttable(log@),
    ensures
        op_views(ops@) == hardware_report_spec(log@),
{
    let lines = content_lines_of(log);
    let ghost ls = views(lines@);
    let mut ops: Vec<Op> = Vec::new();
    let mut i: usize = 0;
    while i < lines.len()
        invariant
            i <= lines.len(),
            ls == views(lines@),
            ls == content_lines(log@),
            log_lines_cuttable(ls),
            op_views(ops@) == log_entries(ls.take(i as int)),
        decreases lines.len() - i,
    {
        proof {
            assert(ls[i as int] == lines@[i as int]@);
            assert(ls.take(i + 1).drop_last() =~= ls.take(i as int));
            assert(ls.take(i + 1).last() == ls[i as int]);
        }
        let ghost before = ops@;
        match hardware_log_entry(lines[i].as_str()) {
            Some(o) => {
                ops.push(o);
                proof {
                    assert(op_views(ops@) =~= op_views(before).push(o@));
                }
            },
            None => {},
        }
        i = i + 1;
    }
    proof {
        assert(ls.take(lines.len() as int) =~= ls);
    }
    if ops.len() == 0 {
        let mut t = color_code(Color::Yellow).to_owned();
        t.append("  [ INFO ] Sin salida en el motor de hardware.\n");
        t.append(reset_code());
        ops.push(Op::Print(t));
        proof {
            assert(op_views(ops@) =~= hardware_report_spec(log@));
        }
    }
    ops
}

proof fn lemma_encode_concat(a: Seq<char>, b: Seq<char>)
    ensures
        encode_utf8(a + b) == encode_utf8(a) + encode_utf8(b),
    decreases a.len(),
{
    if a.len() == 0 {
        assert(a + b =~= b);
        assert(encode_utf8(a) =~= Seq::<u8>::empty());
        assert(encode_utf8(a) + encode_utf8(b) =~= encode_utf8(b));
    } else {
        lemma_encode_concat(a.drop_first(), b);
        assert((a + b).drop_first() =~= a.drop_first() + b);
        assert((a + b)[0] == a[0]);
    }
}

/// A message is never shown longer than 56 bytes.
pub proof fn lemma_shown_message_fits(msg: Seq<char>)
    requires
        message_cuttable(msg),
    ensures
        byte_len(shown_message(msg)) <= 56,
{
    if byte_len(msg) > 56 {
        let bytes = encode_utf8(msg);
        let kept = bytes.subrange(0, 53);
        vstd::utf8::encode_utf8_valid_utf8(msg);
        vstd::utf8::valid_utf8_split(bytes, 53);
        vstd::utf8::decode_utf8_encode_utf8(kept);
        let dots = "..."@;
        lemma_encode_concat(decode_utf8(kept), dots);
        reveal_strlit("...");
        assert(dots =~= seq!['.', '.', '.']);
        reveal_with_fuel(encode_utf8, 4);
        assert(encode_utf8(dots).len() == 3);
    }
}

} // verus!
