use hostprobe::cpu::{get_cpu_info, CpuEvidence};
use hostprobe::gpu::{get_gpu_info, GpuEvidence};

fn text(s: &str) -> Option<String> {
    Some(s.to_string())
}

fn linux_cpu(cpuinfo: &str) -> String {
    get_cpu_info("Linux", &CpuEvidence { cpuinfo: text(cpuinfo), brand_string: None })
}

fn pci(list: &str) -> String {
    get_gpu_info(
        "Linux",
        &GpuEvidence { os_product_name: None, display_report: None, pci_devices: text(list) },
    )
}

fn displays(product: &str, report: &str) -> String {
    get_gpu_info(
        "Darwin",
        &GpuEvidence {
            os_product_name: text(product),
            display_report: text(report),
            pci_devices: text("00:02.0 VGA compatible controller: wrong (rev 01)\n"),
        },
    )
}

#[test]
fn cpu_model_name_on_linux() {
    let info = "processor\t: 0\nvendor_id\t: GenuineIntel\nmodel name\t: Intel(R) Core(TM) i7-8565U CPU @ 1.80GHz\nstepping\t: 12\nprocessor\t: 1\nmodel name\t: second\n";
    assert_eq!(linux_cpu(info), "Intel(R) Core(TM) i7-8565U CPU @ 1.80GHz");
}

#[test]
fn cpu_model_name_is_all_that_follows_the_first_colon() {
    assert_eq!(linux_cpu("model name : AMD Ryzen 7: 5800X\n"), "AMD Ryzen 7: 5800X");
}

#[test]
fn cpu_line_without_colon_is_passed_over() {
    assert_eq!(linux_cpu("model name missing\nmodel name: Cortex-A72\n"), "Cortex-A72");
}

#[test]
fn cpu_line_must_begin_with_the_key() {
    assert_eq!(linux_cpu(" model name: indented\nModel name: capital\n"), "Unknown");
}

#[test]
fn cpu_unknown_without_model_name() {
    assert_eq!(linux_cpu("processor\t: 0\nBogoMIPS\t: 108.00\n"), "Unknown");
    assert_eq!(linux_cpu(""), "Unknown");
    assert_eq!(get_cpu_info("Linux", &CpuEvidence { cpuinfo: None, brand_string: None }), "Unknown");
}

#[test]
fn cpu_empty_model_name_is_unknown() {
    assert_eq!(linux_cpu("model name\t:   \nmodel name: later\n"), "Unknown");
}

#[test]
fn cpu_brand_string_on_darwin() {
    let e = CpuEvidence { cpuinfo: text("model name: wrong\n"), brand_string: text("Apple M1 Pro\n") };
    assert_eq!(get_cpu_info("Darwin", &e), "Apple M1 Pro");
    let e = CpuEvidence { cpuinfo: text("model name: wrong\n"), brand_string: None };
    assert_eq!(get_cpu_info("Darwin", &e), "Unknown");
    let e = CpuEvidence { cpuinfo: None, brand_string: text("\n") };
    assert_eq!(get_cpu_info("Darwin", &e), "Unknown");
}

#[test]
fn cpu_unknown_on_other_systems() {
    let e = CpuEvidence { cpuinfo: text("model name: x\n"), brand_string: text("y") };
    assert_eq!(get_cpu_info("FreeBSD", &e), "Unknown");
}

#[test]
fn gpu_first_display_device_of_the_pci_list() {
    let list = "00:00.0 Host bridge: Intel Corporation Device 3e34 (rev 0c)\n00:02.0 VGA compatible controller: Intel Corporation UHD Graphics 620 (rev 02)\n01:00.0 3D controller: NVIDIA Corporation GP108M [GeForce MX250] (rev a1)\n";
    assert_eq!(pci(list), "00:02.0 VGA compatible controller: Intel Corporation UHD Graphics 620");
}

#[test]
fn gpu_markers_are_display_3d_and_vga() {
    assert_eq!(pci("01:00.0 3D controller: NVIDIA GP108M (rev a1)\n"), "01:00.0 3D controller: NVIDIA GP108M");
    assert_eq!(pci("03:00.0 Display controller: AMD Topaz XT (rev c3)\n"), "03:00.0 Display controller: AMD Topaz XT");
    assert_eq!(
        pci("00:1f.3 Audio device: Intel Display Audio (rev 30)\n"),
        "00:1f.3 Audio device: Intel Display Audio"
    );
    assert_eq!(pci("00:1f.3 Audio device: Intel HD Audio (rev 30)\n"), "Unknown");
}

#[test]
fn gpu_line_without_revision_is_kept_whole() {
    assert_eq!(
        pci("  00:02.0 VGA compatible controller: Red Hat, Inc. Virtio GPU \n"),
        "00:02.0 VGA compatible controller: Red Hat, Inc. Virtio GPU"
    );
    assert_eq!(pci("VGA adapter\n00:02.0 VGA compatible controller: later (rev 01)\n"), "VGA adapter");
}

#[test]
fn gpu_line_ends_before_the_first_revision() {
    assert_eq!(pci("VGA: Chip (rev 01) (rev 02)\n"), "VGA: Chip");
    assert_eq!(pci("VGA: Chip (prototype) (rev 02)\n"), "VGA: Chip (prototype)");
}

#[test]
fn gpu_line_that_is_all_revision_is_unknown() {
    assert_eq!(pci(" (rev 01) VGA\n00:02.0 VGA compatible controller: later (rev 01)\n"), "Unknown");
}

#[test]
fn gpu_unknown_without_display_device() {
    assert_eq!(pci(""), "Unknown");
    assert_eq!(
        get_gpu_info("Linux", &GpuEvidence { os_product_name: None, display_report: None, pci_devices: None }),
        "Unknown"
    );
}

#[test]
fn gpu_other_systems_use_the_pci_list() {
    let e = GpuEvidence {
        os_product_name: None,
        display_report: text("Chipset Model: wrong\n"),
        pci_devices: text("00:02.0 VGA compatible controller: Matrox G200 (rev 01)\n"),
    };
    assert_eq!(get_gpu_info("FreeBSD", &e), "00:02.0 VGA compatible controller: Matrox G200");
}

#[test]
fn gpu_chipset_of_the_display_report() {
    let report = "Graphics/Displays:\n\n    Intel UHD Graphics 630:\n\n      Chipset Model: Intel UHD Graphics 630\n      Type: GPU\n    AMD Radeon Pro 5500M:\n      Chipset Model: AMD Radeon Pro 5500M\n";
    assert_eq!(displays("macOS\n", report), "Intel UHD Graphics 630");
}

#[test]
fn gpu_chipset_is_all_that_follows_the_first_key() {
    assert_eq!(displays("macOS\n", "Chipset Model: A Chipset Model: B\n"), "A Chipset Model: B");
}

#[test]
fn gpu_unknown_without_chipset() {
    assert_eq!(displays("macOS\n", "Graphics/Displays:\n"), "Unknown");
    assert_eq!(displays("macOS\n", "      Chipset Model:\n"), "Unknown");
    assert_eq!(displays("macOS\n", "      Chipset Model: \n"), "Unknown");
}

#[test]
fn gpu_unknown_on_the_mobile_system() {
    assert_eq!(displays("iPhone OS\n", "      Chipset Model: Apple A13\n"), "Unknown");
}
