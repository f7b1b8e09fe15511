use rust_optimizer::hardware::{
    escape_backslashes, hardware_log_cuttable, hardware_log_entry, hardware_report,
    hardware_script, is_message_cuttable, shorten_message, split_log_fields, temp_file,
};
use rust_optimizer::plan::Op;
use rust_optimizer::console::StatusLine;

fn show(desc: &str, ok: bool, warn: bool) -> Op {
    Op::Show(StatusLine { desc: desc.to_string(), ok, warn })
}

#[test]
fn backslashes_are_doubled() {
    for p in ["", "C:\\Users\\x\\AppData\\Local\\Temp\\rsopt_hw_1.log", "no-slash", "\\\\"] {
        assert_eq!(escape_backslashes(p), p.replace('\\', "\\\\"));
    }
}

#[test]
fn script_matches_template() {
    let log = "C:\\Temp\\rsopt_hw_7.log";
    let log_path = log.replace('\\', "\\\\");
    let expected = format!(
        r#"
$ErrorActionPreference = 'SilentlyContinue'
$ProgressPreference = 'SilentlyContinue'
$LogPath = "{log_path}"

function Add-Log {{
    param([string]$Kind, [string]$Category, [string]$Message, [string]$Status = 'OK')
    $line = "$Kind|$Category|$Status|$Message"
    Add-Content -LiteralPath $LogPath -Value $line -Encoding UTF8
}}

function Safe-Name {{
    param($Value)
    if ($null -eq $Value) {{ return '' }}
    return ([string]$Value).Replace("`r", " ").Replace("`n", " ").Trim()
}}

Remove-Item -LiteralPath $LogPath -Force -ErrorAction SilentlyContinue
New-Item -ItemType File -Path $LogPath -Force | Out-Null

# ── BCD Optimizations ──────────────────────────────────────────────────────
try {{
    bcdedit /set disabledynamictick yes | Out-Null
    Add-Log 'INFO' 'BCD' 'disabledynamictick = yes'
}} catch {{
    Add-Log 'WARN' 'BCD' 'No se pudo aplicar disabledynamictick' 'WARN'
}}

try {{
    bcdedit /set useplatformtick yes | Out-Null
    Add-Log 'INFO' 'BCD' 'useplatformtick = yes'
}} catch {{
    Add-Log 'WARN' 'BCD' 'No se pudo aplicar useplatformtick' 'WARN'
}}

try {{
    bcdedit /set useplatformclock no | Out-Null
    Add-Log 'INFO' 'BCD' 'useplatformclock = no (Reloj TSC forzado)'
}} catch {{
    Add-Log 'WARN' 'BCD' 'No se pudo aplicar useplatformclock' 'WARN'
}}

try {{
    # ── Desactivar Paginación de 5 Niveles (Address57 translation overhead bypass)
    bcdedit /set linearaddress57 OptOut | Out-Null
    Add-Log 'INFO' 'BCD' 'linearaddress57 = OptOut (Paginacion de 5 niveles desactivada)'
}} catch {{
    Add-Log 'WARN' 'BCD' 'No se pudo aplicar linearaddress57' 'WARN'
}}

try {{
    # ── Desactivar inicio de Virtual Secure Mode (VBS/Core Isolation boot bypass)
    bcdedit /set vsmlaunchtype Off | Out-Null
    Add-Log 'INFO' 'BCD' 'vsmlaunchtype = Off (VBS/Core Isolation desactivado al inicio)'
}} catch {{
    Add-Log 'WARN' 'BCD' 'No se pudo desactivar vsmlaunchtype' 'WARN'
}}

try {{
    bcdedit /set nx OptIn | Out-Null
    Add-Log 'INFO' 'BCD' 'DEP = OptIn'
}} catch {{
    Add-Log 'WARN' 'BCD' 'No se pudo ajustar DEP' 'WARN'
}}

try {{
    bcdedit /set x2apicpolicy Enable | Out-Null
    Add-Log 'INFO' 'BCD' 'x2apicpolicy = Enable (Extended APIC habilitado)'
}} catch {{
    Add-Log 'WARN' 'BCD' 'No se pudo aplicar x2apicpolicy' 'WARN'
}}

try {{
    bcdedit /set tscsyncpolicy Enhanced | Out-Null
    Add-Log 'INFO' 'BCD' 'tscsyncpolicy = Enhanced (Sincronizacion TSC forzada)'
}} catch {{
    Add-Log 'WARN' 'BCD' 'No se pudo aplicar tscsyncpolicy' 'WARN'
}}

try {{
    bcdedit /set usephysicaldestination yes | Out-Null
    Add-Log 'INFO' 'BCD' 'usephysicaldestination = yes (APIC direccionamiento fisico)'
}} catch {{
    Add-Log 'WARN' 'BCD' 'No se pudo aplicar usephysicaldestination' 'WARN'
}}

try {{
    bcdedit /set firstmegabytepolicy UseAll | Out-Null
    Add-Log 'INFO' 'BCD' 'firstmegabytepolicy = UseAll (Primer megabyte de RAM activo)'
}} catch {{
    Add-Log 'WARN' 'BCD' 'No se pudo aplicar firstmegabytepolicy' 'WARN'
}}

# ── Windows Memory Management & Compression Tuning ─────────────────────────
try {{
    # ── Desactivar compresión de memoria (MMAgent Memory Compression Off)
    Disable-MMAgent -MemoryCompression | Out-Null
    Add-Log 'INFO' 'KERNEL' 'MemoryCompression = OFF (Compresion de RAM desactivada)'
}} catch {{
    Add-Log 'WARN' 'KERNEL' 'No se pudo desactivar la compresion de memoria' 'WARN'
}}

try {{
    # ── Desactivar VBS e Integridad de Memoria (HVCI) en el Registro
    $vbsPath = "HKLM:\System\CurrentControlSet\Control\DeviceGuard"
    if (!(Test-Path $vbsPath)) {{ New-Item -Path $vbsPath -Force | Out-Null }}
    New-ItemProperty -Path $vbsPath -Name "EnableVirtualizationBasedSecurity" -Value 0 -PropertyType DWord -Force | Out-Null
    
    $hvciPath = "HKLM:\System\CurrentControlSet\Control\DeviceGuard\Scenarios\HypervisorEnforcedCodeIntegrity"
    if (!(Test-Path $hvciPath)) {{ New-Item -Path $hvciPath -Force | Out-Null }}
    New-ItemProperty -Path $hvciPath -Name "Enabled" -Value 0 -PropertyType DWord -Force | Out-Null
    Add-Log 'INFO' 'KERNEL' 'HVCI / VBS deshabilitado en Registro'
}} catch {{
    Add-Log 'WARN' 'KERNEL' 'No se pudo deshabilitar VBS/HVCI en el Registro' 'WARN'
}}

try {{
    # ── Forzar Kernel y Controladores (Drivers) a RAM física (DisablePagingExecutive)
    $mmPath = "HKLM:\System\CurrentControlSet\Control\Session Manager\Memory Management"
    New-ItemProperty -Path $mmPath -Name "DisablePagingExecutive" -Value 1 -PropertyType DWord -Force | Out-Null
    Add-Log 'INFO' 'KERNEL' 'DisablePagingExecutive = 1 (Kernel y Controladores en RAM)'
}} catch {{
    Add-Log 'WARN' 'KERNEL' 'No se pudo aplicar DisablePagingExecutive' 'WARN'
}}

# ── Pagefile Optimization ──────────────────────────────────────────────────
try {{
    $ramBytes = (Get-CimInstance Win32_ComputerSystem).TotalPhysicalMemory
    $ramGB = [Math]::Round($ramBytes / 1GB)
    
    if ($ramGB -ge 32) {{ $size = 4096 }}
    elseif ($ramGB -ge 16) {{ $size = 8192 }}
    else {{ $size = 12288 }}
    
    $cs = Get-CimInstance Win32_ComputerSystem
    if ($cs.AutomaticManagedPagefile) {{
        $cs.AutomaticManagedPagefile = $false
        Set-CimInstance -CimInstance $cs -ErrorAction Stop | Out-Null
    }}
    
    $pf = Get-CimInstance Win32_PageFileSetting
    if ($pf) {{
        $pf.InitialSize = $size
        $pf.MaximumSize = $size
        Set-CimInstance -CimInstance $pf -ErrorAction Stop | Out-Null
    }} else {{
        New-CimInstance -ClassName Win32_PageFileSetting -Property @{{ Name = 'C:\pagefile.sys'; InitialSize = $size; MaximumSize = $size }} -ErrorAction Stop | Out-Null
    }}
    Add-Log 'INFO' 'PAGING' ("Pagefile estatico optimizado a " + $size + " MB (RAM: " + $ramGB + " GB)")
}} catch {{
    Add-Log 'WARN' 'PAGING' 'No se pudo configurar el archivo de paginacion estatico' 'WARN'
}}

# ── NTFS File System Optimization ──────────────────────────────────────────
try {{
    fsutil behavior set disablelastaccess 1 | Out-Null
    fsutil behavior set disable8dot3 1 | Out-Null
    fsutil behavior set memoryusage 2 | Out-Null
    
    $ramBytes = (Get-CimInstance Win32_ComputerSystem).TotalPhysicalMemory
    $ramGB = [Math]::Round($ramBytes / 1GB)
    if ($ramGB -ge 32) {{ $mftZoneVal = 4 }}
    elseif ($ramGB -ge 16) {{ $mftZoneVal = 3 }}
    else {{ $mftZoneVal = 2 }}
    
    fsutil behavior set mftzone $mftZoneVal | Out-Null
    Add-Log 'INFO' 'NTFS' ("NTFS optimizado: LastAccess=OFF, 8dot3=OFF, MemoryUsage=2, MftZone=" + $mftZoneVal)
}} catch {{
    Add-Log 'WARN' 'NTFS' 'No se pudieron aplicar todas las optimizaciones NTFS' 'WARN'
}}

# ── CPU Kernel Scheduling (Win32PrioritySeparation = 38) ───────────────────
try {{
    Set-ItemProperty -Path "HKLM:\System\CurrentControlSet\Control\PriorityControl" -Name "Win32PrioritySeparation" -Value 38 | Out-Null
    Add-Log 'INFO' 'KERNEL' 'Win32PrioritySeparation optimizado a 38 (0x26 - Foreground boost)'
}} catch {{
    Add-Log 'WARN' 'KERNEL' 'No se pudo aplicar Win32PrioritySeparation' 'WARN'
}}

# ── Speculative Execution Control (Spectre/Meltdown mitigations bypass) ────
try {{
    $path = "HKLM:\SYSTEM\CurrentControlSet\Control\Session Manager\Memory Management"
    New-ItemProperty -Path $path -Name "FeatureSettingsOverride" -Value 3 -PropertyType DWord -Force | Out-Null
    New-ItemProperty -Path $path -Name "FeatureSettingsOverrideMask" -Value 3 -PropertyType DWord -Force | Out-Null
    Add-Log 'INFO' 'KERNEL' 'Mitigaciones de CPU (Spectre/Meltdown) desactivadas para rendimiento'
}} catch {{
    Add-Log 'WARN' 'KERNEL' 'No se pudieron desactivar las mitigaciones de CPU' 'WARN'
}}

# ── GPU Hardware-Accelerated Scheduling (HAGS) & TDR Delay ──────────────────
try {{
    $path = "HKLM:\System\CurrentControlSet\Control\GraphicsDrivers"
    New-ItemProperty -Path $path -Name "HwSchMode" -Value 2 -PropertyType DWord -Force | Out-Null
    New-ItemProperty -Path $path -Name "TdrDelay" -Value 10 -PropertyType DWord -Force | Out-Null
    Add-Log 'INFO' 'KERNEL' 'GPU Tuning: HAGS forzado y TdrDelay fijados'
}} catch {{
    Add-Log 'WARN' 'KERNEL' 'No se pudieron aplicar ajustes avanzados de GPU' 'WARN'
}}


# ── MSI Mode for Devices ───────────────────────────────────────────────────
function Enable-MsiForDevice {{
    param(
        [string]$PnpId,
        [string]$Name,
        [string]$Type,
        [bool]$IsGpu
    )

    $PnpId = Safe-Name $PnpId
    $Name = Safe-Name $Name
    if ([string]::IsNullOrWhiteSpace($PnpId) -or [string]::IsNullOrWhiteSpace($Name)) {{ return }}

    $base = 'HKLM:\SYSTEM\CurrentControlSet\Enum\' + $PnpId + '\Device Parameters\Interrupt Management'
    $msiPath = $base + '\MessageSignaledInterruptProperties'

    try {{
        if (!(Test-Path $msiPath)) {{ New-Item -Path $msiPath -Force | Out-Null }}
        New-ItemProperty -Path $msiPath -Name 'MSISupported' -Value 1 -PropertyType DWord -Force | Out-Null
        Add-Log 'HW' $Type ('MSI habilitado -> ' + $Name)
    }} catch {{
        Add-Log 'WARN' $Type ('No se pudo habilitar MSI -> ' + $Name) 'WARN'
    }}

    if ($IsGpu) {{
        $affPath = $base + '\Affinity Policy'
        try {{
            if (!(Test-Path $affPath)) {{ New-Item -Path $affPath -Force | Out-Null }}
            New-ItemProperty -Path $affPath -Name 'DevicePriority' -Value 3 -PropertyType DWord -Force | Out-Null
            New-ItemProperty -Path $affPath -Name 'DevicePolicy' -Value 3 -PropertyType DWord -Force | Out-Null

            $cores = @(Get-CimInstance Win32_Processor | Select-Object -ExpandProperty NumberOfLogicalProcessors | Where-Object {{ $_ -gt 0 }} | Measure-Object -Sum).Sum
            if ($cores -gt 1) {{
                $mask = [uint64](([math]::Pow(2, $cores)) - 2)
                $bytes = [BitConverter]::GetBytes($mask)
                New-ItemProperty -Path $affPath -Name 'AssignmentSetOverride' -Value $bytes -PropertyType Binary -Force | Out-Null
                Add-Log 'HW' $Type ('Afinidad IRQ aplicada (mask=0x' + $mask.ToString('X') + ') -> ' + $Name)
            }} else {{
                Add-Log 'WARN' $Type ('No se aplico afinidad IRQ por nucleos insuficientes -> ' + $Name) 'WARN'
            }}
        }} catch {{
            Add-Log 'WARN' $Type ('No se pudo aplicar prioridad/afinidad GPU -> ' + $Name) 'WARN'
        }}
    }}
}}

# ── GPUs ────────────────────────────────────────────────────────────────────
try {{
    $gpus = Get-CimInstance Win32_VideoController | Select-Object PNPDeviceID, Name
    foreach ($gpu in $gpus) {{
        Enable-MsiForDevice -PnpId $gpu.PNPDeviceID -Name $gpu.Name -Type 'GPU' -IsGpu $true
    }}
}} catch {{
    Add-Log 'WARN' 'GPU' 'No se pudieron enumerar GPUs' 'WARN'
}}

# ── Storage Controllers ────────────────────────────────────────────────────
try {{
    $storageControllers = Get-PnpDevice -PresentOnly | Where-Object {{
        $_.Class -in @('SCSIAdapter','HDC','IDE','Storage')
    }} | Select-Object InstanceId, FriendlyName, Class

    foreach ($ctrl in $storageControllers) {{
        $nm = if ([string]::IsNullOrWhiteSpace($ctrl.FriendlyName)) {{ $ctrl.InstanceId }} else {{ $ctrl.FriendlyName }}
        Enable-MsiForDevice -PnpId $ctrl.InstanceId -Name $nm -Type 'Storage' -IsGpu $false
    }}
}} catch {{
    Add-Log 'WARN' 'Storage' 'No se pudieron enumerar controladores de almacenamiento' 'WARN'
}}

# ── NICs Fisicas ───────────────────────────────────────────────────────────
try {{
    $nics = Get-NetAdapter -Physical -ErrorAction SilentlyContinue | Where-Object {{ $_.InterfaceDescription -notmatch 'VirtualBox|VMware|Virtual|Hyper-V|vEthernet|Loopback|TAP' -and $_.Name -notmatch 'VirtualBox|VMware|Virtual|Hyper-V|vEthernet|Loopback|TAP' }} | Select-Object Name, InterfaceDescription, PnPDeviceID
    foreach ($nic in $nics) {{
        $nm = if ([string]::IsNullOrWhiteSpace($nic.InterfaceDescription)) {{ $nic.Name }} else {{ $nic.InterfaceDescription }}
        Enable-MsiForDevice -PnpId $nic.PnPDeviceID -Name $nm -Type 'NIC' -IsGpu $false
    }}
}} catch {{
    Add-Log 'WARN' 'NIC' 'No se pudieron enumerar NICs fisicas' 'WARN'
}}

# ── USB Controllers ────────────────────────────────────────────────────────
try {{
    $usbControllers = Get-PnpDevice -PresentOnly | Where-Object {{
        $_.Class -eq 'USB'
    }} | Select-Object InstanceId, FriendlyName

    foreach ($usb in $usbControllers) {{
        $nm = if ([string]::IsNullOrWhiteSpace($usb.FriendlyName)) {{ $usb.InstanceId }} else {{ $usb.FriendlyName }}
        Enable-MsiForDevice -PnpId $usb.InstanceId -Name $nm -Type 'USB' -IsGpu $false
    }}
}} catch {{
    Add-Log 'WARN' 'USB' 'No se pudieron enumerar controladores USB' 'WARN'
}}

# ── DWM MMCSS ──────────────────────────────────────────────────────────────
try {{
    Add-Type -TypeDefinition @'
using System.Runtime.InteropServices;
public static class DwmBridge {{
    [DllImport("dwmapi.dll", PreserveSig=false)]
    public static extern void DwmEnableMMCSS(bool enable);
}}
'@
    [DwmBridge]::DwmEnableMMCSS($true)
    Add-Log 'INFO' 'DWM' 'DwmEnableMMCSS(true) ejecutado'
}} catch {{
    Add-Log 'WARN' 'DWM' 'No se pudo invocar DwmEnableMMCSS' 'WARN'
}}

# ── MMCSS Network Throttling ───────────────────────────────────────────────
try {{
    $mmcssPath = 'HKLM:\SOFTWARE\Microsoft\Windows NT\CurrentVersion\Multimedia\SystemProfile'
    if (Test-Path $mmcssPath) {{
        New-ItemProperty -Path $mmcssPath -Name 'NetworkThrottlingIndex' -Value 0xFFFFFFFF -PropertyType DWord -Force | Out-Null
        New-ItemProperty -Path $mmcssPath -Name 'SystemResponsiveness' -Value 0 -PropertyType DWord -Force | Out-Null
        Add-Log 'INFO' 'MMCSS' 'NetworkThrottlingIndex=FFFFFFFF, SystemResponsiveness=0'
    }}
}} catch {{
    Add-Log 'WARN' 'MMCSS' 'No se pudo ajustar MMCSS' 'WARN'
}}

# ── GPU Priority via MMCSS Tasks ───────────────────────────────────────────
try {{
    $gpuPath = 'HKLM:\SOFTWARE\Microsoft\Windows NT\CurrentVersion\Multimedia\SystemProfile\Tasks\Games'
    if (!(Test-Path $gpuPath)) {{ New-Item -Path $gpuPath -Force | Out-Null }}
    New-ItemProperty -Path $gpuPath -Name 'GPU Priority' -Value 8 -PropertyType DWord -Force | Out-Null
    New-ItemProperty -Path $gpuPath -Name 'Priority' -Value 6 -PropertyType DWord -Force | Out-Null
    New-ItemProperty -Path $gpuPath -Name 'Scheduling Category' -Value 'High' -PropertyType String -Force | Out-Null
    New-ItemProperty -Path $gpuPath -Name 'SFIO Priority' -Value 'High' -PropertyType String -Force | Out-Null
    Add-Log 'INFO' 'MMCSS' 'GPU Priority y Games Task optimizados'
}} catch {{
    Add-Log 'WARN' 'MMCSS' 'No se pudo ajustar GPU Priority' 'WARN'
}}

# ── Global Timer Resolution & Power Throttling Windows 10/11 ──────────────
try {{
    $kernelPath = 'HKLM:\SYSTEM\CurrentControlSet\Control\Session Manager\kernel'
    if (!(Test-Path $kernelPath)) {{ New-Item -Path $kernelPath -Force | Out-Null }}
    New-ItemProperty -Path $kernelPath -Name 'GlobalTimerResolutionRequests' -Value 1 -PropertyType DWord -Force | Out-Null
    Add-Log 'INFO' 'BCD' 'GlobalTimerResolutionRequests = 1'
}} catch {{
    Add-Log 'WARN' 'BCD' 'No se pudo aplicar GlobalTimerResolutionRequests' 'WARN'
}}

try {{
    $powerPath = 'HKLM:\SYSTEM\CurrentControlSet\Control\Power\PowerThrottling'
    if (!(Test-Path $powerPath)) {{ New-Item -Path $powerPath -Force | Out-Null }}
    New-ItemProperty -Path $powerPath -Name 'PowerThrottlingOff' -Value 1 -PropertyType DWord -Force | Out-Null
    Add-Log 'INFO' 'POWER' 'PowerThrottlingOff = 1'
}} catch {{
    Add-Log 'WARN' 'POWER' 'No se pudo desactivar Power Throttling' 'WARN'
}}

try {{
    $powerPath = 'HKLM:\SYSTEM\CurrentControlSet\Control\Power'
    if (!(Test-Path $powerPath)) {{ New-Item -Path $powerPath -Force | Out-Null }}
    New-ItemProperty -Path $powerPath -Name 'DisableInterruptSteering' -Value 1 -PropertyType DWord -Force | Out-Null
    Add-Log 'INFO' 'POWER' 'DisableInterruptSteering = 1 (Interrupt steering desactivado)'
}} catch {{
    Add-Log 'WARN' 'POWER' 'No se pudo aplicar DisableInterruptSteering' 'WARN'
}}
"#,
        log_path = log_path
    );
    assert_eq!(hardware_script(log), expected);
}

#[test]
fn temp_file_names() {
    assert_eq!(temp_file("rsopt_hw_", 1234, ".ps1"), "rsopt_hw_1234.ps1");
    assert_eq!(temp_file("RSOpt_", 0, ".reg"), "RSOpt_0.reg");
    assert_eq!(temp_file("rsopt_hw_", u32::MAX, ".log"), format!("rsopt_hw_{}.log", u32::MAX));
}

#[test]
fn fields_split_at_first_three_bars() {
    let f = split_log_fields("a|b|c|d|e").unwrap();
    assert_eq!(f, ("a".to_string(), "b".to_string(), "c".to_string(), "d|e".to_string()));
    assert_eq!(split_log_fields("a|b|c"), None);
    assert_eq!(split_log_fields("|||").unwrap(), (String::new(), String::new(), String::new(), String::new()));
}

#[test]
fn report_from_log() {
    let log = "INFO|BCD|OK|disabledynamictick = yes\r\n\
               WARN|BCD|WARN|No se pudo aplicar useplatformtick\r\n\
               HW|GPU|OK|MSI habilitado -> NVIDIA\r\n\r\n\
               bad line\r\n  X|Y|ok|a|b  \r\n";
    assert!(hardware_log_cuttable(log));
    assert_eq!(
        hardware_report(log),
        vec![
            show("Aplicando [BCD] -> disabledynamictick = yes", true, false),
            show("Aviso [BCD] -> No se pudo aplicar useplatformtick", false, true),
            show("MSI/IRQ -> [GPU] MSI habilitado -> NVIDIA", true, false),
            show("Aplicando [Y] -> a|b", true, false),
        ]
    );
}

#[test]
fn kinds_are_matched_exactly() {
    assert_eq!(hardware_log_entry("hw|GPU|OK|m"), Some(show("Aplicando [GPU] -> m", true, false)));
    assert_eq!(hardware_log_entry("WARN|K|Warn|m"), Some(show("Aviso [K] -> m", false, true)));
    assert_eq!(hardware_log_entry("INFO|K|done|m"), Some(show("Aplicando [K] -> m", false, false)));
    assert_eq!(hardware_log_entry("INFO|K"), None);
}

#[test]
fn empty_log_gives_a_note() {
    assert_eq!(
        hardware_report("\r\n  \n"),
        vec![Op::Print("\x1b[33m  [ INFO ] Sin salida en el motor de hardware.\n\x1b[0m".to_string())]
    );
    assert_eq!(hardware_report("").len(), 1);
}

#[test]
fn long_messages_are_cut() {
    let msg = "a".repeat(60);
    assert_eq!(shorten_message(&msg), format!("{}...", "a".repeat(53)));
    let exact = "b".repeat(56);
    assert_eq!(shorten_message(&exact), exact);
    let line = format!("INFO|KERNEL|OK|{}", msg);
    assert_eq!(hardware_report(&line), vec![show(&format!("Aplicando [KERNEL] -> {}...", "a".repeat(53)), true, false)]);
    let mut original = msg.clone();
    original.truncate(53);
    original.push_str("...");
    assert_eq!(shorten_message(&msg), original);
    assert!(shorten_message(&msg).len() <= 56);
}

#[test]
fn multibyte_messages() {
    // 'é' takes bytes 52 and 53: byte 53 is inside it.
    let bad = format!("{}é{}", "a".repeat(52), "b".repeat(10));
    assert!(!bad.is_char_boundary(53));
    assert!(!is_message_cuttable(&bad));
    assert!(!hardware_log_cuttable(&format!("INFO|K|OK|{}", bad)));
    // 'é' takes bytes 51 and 52: byte 53 starts the next character.
    let good = format!("{}é{}", "a".repeat(51), "b".repeat(10));
    assert!(is_message_cuttable(&good));
    assert_eq!(shorten_message(&good), format!("{}é...", "a".repeat(51)));
    // Short in bytes: shown whole.
    let short = "é".repeat(28);
    assert!(is_message_cuttable(&short));
    assert_eq!(shorten_message(&short), short);
}
