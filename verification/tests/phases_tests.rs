use rust_optimizer::console::StatusLine;
use rust_optimizer::nic::set_nic_property;
use rust_optimizer::phases::{
    apply_adapter_offload_tweaks, apply_congestion_providers, apply_firewall_rules,
    apply_nic_advanced_tweaks, apply_tcp_global_optimizations, cores_or_default,
    optimize_loopback, GLOBAL_NAGLE_SCRIPT, WIFI_SCAN_SCRIPT,
};
use rust_optimizer::plan::{Op, ProbeWarn, Report};

fn warn(command: &str, desc: &str) -> Op {
    Op::Run { command: command.to_string(), report: Report::Warn(desc.to_string()) }
}

fn show(desc: &str, ok: bool, warn: bool) -> Op {
    Op::Show(StatusLine { desc: desc.to_string(), ok, warn })
}

#[test]
fn loopback_plan() {
    assert_eq!(
        optimize_loopback(),
        vec![warn(
            "netsh int ipv4 set global loopbacklargemtu=disable; netsh int ipv6 set global loopbacklargemtu=disable",
            "Loopback Large MTU deshabilitado (IPv4 + IPv6)"
        )]
    );
}

#[test]
fn tcp_global_plan() {
    let table = [
        ("Desactivando ECN (Explicit Congestion Notification)...", "netsh int tcp set global ecncapability=disabled"),
        ("Desactivando Heuristica TCP...", "netsh int tcp set heuristics disabled"),
        ("Ajustando AutoTuningLevel (Normal)...", "netsh int tcp set global autotuninglevel=normal"),
        ("Activando TCP Timestamps (mejor estimacion RTT)...", "netsh int tcp set global timestamps=enabled"),
        ("Desactivando Chimney Offload (obsoleto)...", "netsh int tcp set global chimney=disabled"),
        ("Desactivando Direct Cache Access...", "netsh int tcp set global dca=disabled"),
        ("Ajustando Initial RTO a 2000ms...", "netsh int tcp set global initialRto=2000"),
        ("Activando RSS global...", "netsh int tcp set global rss=enabled"),
        ("Ajustando Max SYN Retransmissions a 8...", "netsh int tcp set global maxsynretransmissions=8"),
        ("Desactivando resiliencia Non-SACK RST...", "netsh int tcp set global nonsackrttresiliency=disabled"),
        ("Desactivando Receive Segment Coalescing (RSC) global...", "netsh int tcp set global rsc=disabled"),
        ("Activando Caching de conexiones (TCPCache)...", "netsh int tcp set global tcpcachingmode=enabled"),
        ("Ajustando Min RWIN a 65535...", "netsh int tcp set global minrwnd=65535"),
    ];
    let expected: Vec<Op> = table.iter().map(|(d, c)| warn(c, d)).collect();
    assert_eq!(apply_tcp_global_optimizations(), expected);
}

#[test]
fn firewall_rules_are_deleted_before_added() {
    let ops = apply_firewall_rules();
    let mut expected = Vec::new();
    for service in ["DiagTrack", "WerSvc", "dmwappushservice"] {
        expected.push(Op::Run {
            command: format!("netsh advfirewall firewall delete rule name=\"Block {}\"", service),
            report: Report::Silent,
        });
        expected.push(Op::Run {
            command: format!(
                "netsh advfirewall firewall add rule name=\"Block {}\" dir=out action=block service={}",
                service, service
            ),
            report: Report::Quiet(format!("Bloqueando {} (Outbound)...", service)),
        });
    }
    assert_eq!(ops, expected);
}

#[test]
fn offload_plan_without_adapters() {
    assert_eq!(apply_adapter_offload_tweaks(&vec![]), vec![show("No se encontraron adaptadores activos", false, true)]);
}

#[test]
fn offload_plan_for_two_adapters() {
    let adapters = vec!["Ethernet".to_string(), "Wi-Fi".to_string()];
    let mut expected = vec![show("2 adaptadores activos detectados", true, false)];
    for a in &adapters {
        expected.push(warn(&format!("Disable-NetAdapterRsc -Name '{}'", a), &format!("RSC deshabilitado [{}]", a)));
        expected.push(warn(&format!("Disable-NetAdapterLso -Name '{}'", a), &format!("LSO deshabilitado [{}]", a)));
        expected.push(Op::Run {
            command: format!(
                "Set-NetAdapterAdvancedProperty -Name '{}' -RegistryKeyword '*LsoV2IPv4' -RegistryValue 0 -ErrorAction SilentlyContinue; \
                 Set-NetAdapterAdvancedProperty -Name '{}' -RegistryKeyword '*LsoV2IPv6' -RegistryValue 0 -ErrorAction SilentlyContinue",
                a, a
            ),
            report: Report::Assume(format!("LROv2 deshabilitado [{}]", a)),
        });
        expected.push(warn(&format!("Enable-NetAdapterRss -Name '{}'", a), &format!("RSS habilitado [{}]", a)));
    }
    assert_eq!(apply_adapter_offload_tweaks(&adapters), expected);
}

#[test]
fn nic_plan_without_adapters() {
    assert_eq!(apply_nic_advanced_tweaks(&vec![], 8), vec![show("No se encontraron adaptadores para ajustar", false, true)]);
}

fn nagle(adapter: &str) -> String {
    format!("try {{\n                $guid = (Get-NetAdapter -Name '{}' | Select-Object -ExpandProperty InterfaceGuid)\n                $path = \"HKLM:\\SYSTEM\\CurrentControlSet\\Services\\Tcpip\\Parameters\\Interfaces\\$guid\"\n                if (Test-Path $path) {{\n                    New-ItemProperty -Path $path -Name 'TcpAckFrequency' -Value 1 -PropertyType DWord -Force | Out-Null\n                    New-ItemProperty -Path $path -Name 'TCPNoDelay' -Value 1 -PropertyType DWord -Force | Out-Null\n                    New-ItemProperty -Path $path -Name 'TcpDelAckTicks' -Value 0 -PropertyType DWord -Force | Out-Null\n                    Write-Output 'OK'\n                }} else {{ Write-Output 'SKIP' }}\n            }} catch {{ Write-Output 'ERR' }}", adapter)
}

#[test]
fn nic_plan_for_one_adapter() {
    let a = "Ethernet";
    let expected = vec![
        Op::Print(format!("  ── Adaptador: {} ──\n", a)),
        Op::Maximize { adapter: a.to_string(), keyword: "*ReceiveBuffers".to_string(), label: "Receive Buffers".to_string() },
        Op::Maximize { adapter: a.to_string(), keyword: "*TransmitBuffers".to_string(), label: "Transmit Buffers".to_string() },
        warn(&set_nic_property(a, "*InterruptModeration", 0), "Interrupt Moderation OFF [Ethernet]"),
        warn(&set_nic_property(a, "*FlowControl", 0), "Flow Control deshabilitado [Ethernet]"),
        Op::AnyKeyword {
            adapter: a.to_string(),
            keywords: vec!["*EEE".to_string(), "*EnableGreenEthernet".to_string(), "*AdvancedEEE".to_string()],
            value: 0,
            desc: "EEE / Green Ethernet OFF [Ethernet]".to_string(),
        },
        Op::RssQueues { adapter: a.to_string(), cores: 6 },
        warn(
            "Set-NetAdapterPowerManagement -Name 'Ethernet' -WakeOnMagicPacket Disabled -ErrorAction Stop",
            "Wake on Magic Packet OFF [Ethernet]",
        ),
        warn(
            "Set-NetAdapterPowerManagement -Name 'Ethernet' -WakeOnPattern Disabled -ErrorAction Stop",
            "Wake on Pattern OFF [Ethernet]",
        ),
        warn(&set_nic_property(a, "*PMARPOffload", 0), "ARP Offload OFF [Ethernet]"),
        warn(&set_nic_property(a, "*PMNSOffload", 0), "NS Offload OFF [Ethernet]"),
        warn(
            "Set-NetAdapterPowerManagement -Name 'Ethernet' -AllowComputerToTurnOffDevice Disabled -ErrorAction SilentlyContinue",
            "Ahorro de energía deshabilitado [Ethernet]",
        ),
        Op::Probe { command: nagle(a), desc: "Nagle OFF (TcpAckFrequency=1) [Ethernet]".to_string(), warn: ProbeWarn::OnFailure },
        Op::Print("\n".to_string()),
        Op::Probe {
            command: WIFI_SCAN_SCRIPT.to_string(),
            desc: "Latencia Wi-Fi optimizada (ScanOnlyWhenAssociated = 1)".to_string(),
            warn: ProbeWarn::OnError,
        },
        Op::Probe {
            command: GLOBAL_NAGLE_SCRIPT.to_string(),
            desc: "Nagle global deshabilitado (registro TCP)".to_string(),
            warn: ProbeWarn::Never,
        },
    ];
    assert_eq!(apply_nic_advanced_tweaks(&vec![a.to_string()], 6), expected);
}

#[test]
fn nic_scripts_text() {
    assert_eq!(WIFI_SCAN_SCRIPT, "try {\n            $wlanPath = \"HKLM:\\SYSTEM\\CurrentControlSet\\Services\\WlanSvc\\Parameters\\Interfaces\"\n            if (Test-Path $wlanPath) {\n                Get-ChildItem $wlanPath | ForEach-Object {\n                    New-ItemProperty -Path $_.PSPath -Name \"ScanOnlyWhenAssociated\" -Value 1 -PropertyType DWord -Force | Out-Null\n                }\n                Write-Output \"OK\"\n            } else { Write-Output \"SKIP\" }\n        } catch { Write-Output \"ERR\" }");
    assert_eq!(GLOBAL_NAGLE_SCRIPT, "New-ItemProperty -Path 'HKLM:\\SYSTEM\\CurrentControlSet\\Services\\Tcpip\\Parameters' -Name 'TcpAckFrequency' -Value 1 -PropertyType DWord -Force -ErrorAction SilentlyContinue | Out-Null;\n           New-ItemProperty -Path 'HKLM:\\SYSTEM\\CurrentControlSet\\Services\\Tcpip\\Parameters' -Name 'TCPNoDelay' -Value 1 -PropertyType DWord -Force -ErrorAction SilentlyContinue | Out-Null;\n           New-ItemProperty -Path 'HKLM:\\SYSTEM\\CurrentControlSet\\Services\\Tcpip\\Parameters' -Name 'TcpDelAckTicks' -Value 0 -PropertyType DWord -Force -ErrorAction SilentlyContinue | Out-Null;\n           Write-Output 'OK'");
    assert!(nagle("Eth").contains("Get-NetAdapter -Name 'Eth' |"));
}

#[test]
fn nic_plan_repeats_per_adapter() {
    let ops = apply_nic_advanced_tweaks(&vec!["A".to_string(), "B".to_string()], 4);
    assert_eq!(ops.len(), 2 * 14 + 2);
    assert_eq!(ops[14], Op::Print("  ── Adaptador: B ──\n".to_string()));
}

fn profiles(ops: &[Op]) -> Vec<String> {
    ops.iter()
        .filter_map(|o| match o {
            Op::Provider { profile } => Some(profile.clone()),
            _ => None,
        })
        .collect()
}

#[test]
fn congestion_plan_reads_profiles() {
    let ops = apply_congestion_providers(&Ok("Internet\r\nDatacenter\r\n\r\n".to_string()));
    assert_eq!(ops[0], show("2 perfiles TCP encontrados", true, false));
    assert_eq!(profiles(&ops), vec!["Internet".to_string(), "Datacenter".to_string()]);
    assert_eq!(ops.last(), Some(&Op::Summary { total: 2 }));
    assert_eq!(ops.len(), 4);
}

#[test]
fn congestion_plan_defaults_when_nothing_read() {
    for reply in [Ok(String::new()), Err("PowerShell exit code non-zero: x".to_string())] {
        let ops = apply_congestion_providers(&reply);
        assert_eq!(ops[0], show("Lectura dinamica de perfiles (usando lista predefinida)", false, true));
        assert_eq!(
            profiles(&ops),
            vec!["Internet", "Datacenter", "Compat", "InternetCustom", "DatacenterCustom"]
        );
        assert_eq!(ops.last(), Some(&Op::Summary { total: 5 }));
    }
}

#[test]
fn cores_default_to_four() {
    assert_eq!(cores_or_default(None), 4);
    assert_eq!(cores_or_default(Some(12)), 12);
}

#[test]
fn one_rss_step_per_adapter() {
    let adapters = vec!["Ethernet".to_string(), "Wi-Fi".to_string()];
    let ops = apply_nic_advanced_tweaks(&adapters, 6);
    assert_eq!(ops.len(), 14 * 2 + 2);
    let rss: Vec<usize> = (0..ops.len()).filter(|&i| matches!(ops[i], Op::RssQueues { .. })).collect();
    assert_eq!(rss, vec![6, 20]);
    assert_eq!(ops[6], Op::RssQueues { adapter: "Ethernet".to_string(), cores: 6 });
    assert_eq!(ops[20], Op::RssQueues { adapter: "Wi-Fi".to_string(), cores: 6 });
}

