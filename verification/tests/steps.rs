use hostprobe::memory::MemoryReading;
use hostprobe::probe::{Answer, EvidenceSource, Step};
use hostprobe::summary::{probe_step, Attribute};

fn text(s: &str) -> Answer {
    Answer::Text(s.to_string())
}

fn describe(source: &EvidenceSource) -> String {
    match source {
        EvidenceSource::File { path } => format!("file {}", path),
        EvidenceSource::Command { program, arguments } => {
            let mut line = format!("run {}", program);
            for a in arguments {
                line.push(' ');
                line.push_str(a);
            }
            line
        }
        EvidenceSource::Lookup { url } => format!("get {}", url),
        EvidenceSource::Variable { name } => format!("var {}", name),
        EvidenceSource::Directory { path } => format!("dir {}", path),
        EvidenceSource::Program { paths } => format!("program {}", paths.join(" ")),
        EvidenceSource::MemoryCounters => "memory".to_string(),
        EvidenceSource::UptimeCounter => "uptime".to_string(),
    }
}

/// Runs a probe against a machine that answers each source as `machine`
/// says, and returns what was asked, in order, and what the probe showed.
fn run(attribute: Attribute, os: &str, machine: &dyn Fn(&str) -> Answer) -> (Vec<String>, String) {
    let mut answers: Vec<Answer> = Vec::new();
    let mut asked: Vec<String> = Vec::new();
    loop {
        assert!(answers.len() <= 15, "the probe does not come to an end");
        match probe_step(attribute, os, &answers) {
            Step::Ask(source) => {
                let question = describe(&source);
                answers.push(machine(&question));
                asked.push(question);
            }
            Step::Done(shown) => return (asked, shown),
            Step::Abort(reason) => return (asked, format!("abort: {}", reason)),
        }
    }
}

fn silent(_question: &str) -> Answer {
    Answer::Absent
}

#[test]
fn user_probe_asks_the_environment() {
    let (asked, shown) = run(Attribute::User, "Linux", &|q| match q {
        "var USER" => text("alice"),
        _ => Answer::Absent,
    });
    assert_eq!(asked, ["var USER"]);
    assert_eq!(shown, "alice");
    assert_eq!(run(Attribute::User, "Linux", &silent).1, "Unknown");
}

#[test]
fn linux_model_probe_asks_six_files_in_order() {
    let (asked, shown) = run(Attribute::Model, "Linux", &|q| match q {
        "file /sys/devices/virtual/dmi/id/board_vendor" => text("Dell Inc.\n"),
        "file /sys/devices/virtual/dmi/id/board_name" => text("0T9HHG\n"),
        "file /sys/devices/virtual/dmi/id/product_name" => text("XPS 13 9370\n"),
        "file /sys/devices/virtual/dmi/id/product_version" => text("\n"),
        _ => Answer::Absent,
    });
    assert_eq!(
        asked,
        [
            "file /sys/devices/virtual/dmi/id/board_vendor",
            "file /sys/devices/virtual/dmi/id/board_name",
            "file /sys/devices/virtual/dmi/id/product_name",
            "file /sys/devices/virtual/dmi/id/product_version",
            "file /sys/firmware/devicetree/base/model",
            "file /tmp/sysinfo/model",
        ]
    );
    assert_eq!(shown, "XPS 13 9370");
}

#[test]
fn linux_model_probe_with_board_files_only() {
    let (_, shown) = run(Attribute::Model, "Linux", &|q| match q {
        "file /sys/devices/virtual/dmi/id/board_vendor" => text("Dell Inc.\n"),
        "file /sys/devices/virtual/dmi/id/board_name" => text("0T9HHG\n"),
        _ => Answer::Absent,
    });
    assert_eq!(shown, "Dell Inc. 0T9HHG");
}

#[test]
fn linux_model_probe_prefers_the_override_file() {
    let (_, shown) = run(Attribute::Model, "Linux", &|q| match q {
        "file /tmp/sysinfo/model" => text("Workbench\n"),
        _ => text("other\n"),
    });
    assert_eq!(shown, "Workbench");
}

#[test]
fn darwin_model_probe_looks_the_identifier_up() {
    let (asked, shown) = run(Attribute::Model, "Darwin", &|q| match q {
        "run sw_vers -productName" => text("macOS\n"),
        "run sysctl -n hw.model" => text("MacBookAir10,1\n"),
        "run kextstat" => text("Index Refs Address Size Wired Name (Version)\n"),
        "get https://di-api.reincubate.com/v1/apple-identifiers/MacBookAir10,1/" => {
            text("{\"product\":{\"sku\":\"MacBook Air (M1, 2020)\"}}")
        }
        _ => Answer::Absent,
    });
    assert_eq!(
        asked,
        [
            "run sw_vers -productName",
            "run sysctl -n hw.model",
            "run kextstat",
            "get https://di-api.reincubate.com/v1/apple-identifiers/MacBookAir10,1/",
        ]
    );
    assert_eq!(shown, "MacBook Air (M1, 2020)");
}

#[test]
fn darwin_model_probe_survives_a_failed_lookup() {
    let machine = |q: &str| match q {
        "run sw_vers -productName" => text("macOS\n"),
        "run sysctl -n hw.model" => text("MacBookAir10,1\n"),
        "run kextstat" => text("   51    0 0xffffff7f as.vit9696.VirtualSMC (1.3.1)\n"),
        _ => Answer::Absent,
    };
    let (asked, shown) = run(Attribute::Model, "Darwin", &machine);
    assert_eq!(asked.len(), 4);
    assert_eq!(shown, "MacBookAir10,1 (Hackintosh)");
    let failing = |q: &str| match q {
        "get https://di-api.reincubate.com/v1/apple-identifiers/MacBookAir10,1/" => {
            Answer::Failed("timed out".to_string())
        }
        "run kextstat" => Answer::Absent,
        other => machine(other),
    };
    assert_eq!(run(Attribute::Model, "Darwin", &failing).1, "MacBookAir10,1");
}

#[test]
fn darwin_model_probe_on_the_mobile_system() {
    let (asked, shown) = run(Attribute::Model, "Darwin", &|q| match q {
        "run sw_vers -productName" => text("iPhone OS\n"),
        "run uname -m" => text("iPhone12,8\n"),
        _ => Answer::Absent,
    });
    assert_eq!(
        asked,
        [
            "run sw_vers -productName",
            "run uname -m",
            "get https://di-api.reincubate.com/v1/apple-identifiers/iPhone12,8/",
        ]
    );
    assert_eq!(shown, "iPhone12,8");
}

#[test]
fn darwin_model_probe_on_a_silent_machine() {
    let (asked, shown) = run(Attribute::Model, "Darwin", &silent);
    assert_eq!(
        asked,
        [
            "run sw_vers -productName",
            "run sysctl -n hw.model",
            "run kextstat",
            "get https://di-api.reincubate.com/v1/apple-identifiers//",
        ]
    );
    assert_eq!(shown, "Unknown");
}

#[test]
fn probes_of_an_unknown_family() {
    assert_eq!(run(Attribute::OsVersion, "FreeBSD", &silent), (vec![], "Unknown FreeBSD".to_string()));
    assert_eq!(run(Attribute::Model, "FreeBSD", &silent), (vec![], "Unknown".to_string()));
    assert_eq!(run(Attribute::Cpu, "FreeBSD", &silent), (vec![], "Unknown".to_string()));
    assert_eq!(
        run(Attribute::Gpu, "FreeBSD", &silent),
        (vec!["run lspci".to_string()], "Unknown".to_string())
    );
}

#[test]
fn os_version_probe_on_linux() {
    let (asked, shown) = run(Attribute::OsVersion, "Linux", &|q| match q {
        "file /proc/version" => text("Linux version 6.5.0-14-generic (buildd@lcy02)\n"),
        "file /etc/os-release" => text("PRETTY_NAME=\"Ubuntu 23.10\"\nNAME=\"Ubuntu\"\n"),
        _ => Answer::Absent,
    });
    assert_eq!(asked, ["file /proc/version", "file /etc/os-release"]);
    assert_eq!(shown, "Ubuntu 23.10 (Linux 6.5.0-14-generic)");
}

#[test]
fn os_version_probe_on_darwin() {
    let (asked, shown) = run(Attribute::OsVersion, "Darwin", &|q| match q {
        "run sw_vers -productName" => text("macOS\n"),
        "run sw_vers -productVersion" => text("14.2.1\n"),
        "run sw_vers -buildVersion" => text("23C71\n"),
        _ => Answer::Absent,
    });
    assert_eq!(
        asked,
        ["run sw_vers -productName", "run sw_vers -productVersion", "run sw_vers -buildVersion"]
    );
    assert_eq!(shown, "macOS 14.2.1 (23C71)");
}

#[test]
fn cpu_probe_asks_one_source() {
    let (asked, shown) = run(Attribute::Cpu, "Linux", &|q| match q {
        "file /proc/cpuinfo" => text("model name\t: AMD Ryzen 5 3600\n"),
        _ => Answer::Absent,
    });
    assert_eq!(asked, ["file /proc/cpuinfo"]);
    assert_eq!(shown, "AMD Ryzen 5 3600");
    let (asked, shown) = run(Attribute::Cpu, "Darwin", &|q| match q {
        "run sysctl -n machdep.cpu.brand_string" => text("Apple M2\n"),
        _ => Answer::Absent,
    });
    assert_eq!(asked, ["run sysctl -n machdep.cpu.brand_string"]);
    assert_eq!(shown, "Apple M2");
}

#[test]
fn gpu_probe_on_darwin_asks_for_the_product_first() {
    let (asked, shown) = run(Attribute::Gpu, "Darwin", &|q| match q {
        "run sw_vers -productName" => text("macOS\n"),
        "run system_profiler SPDisplaysDataType" => text("      Chipset Model: Apple M2\n"),
        _ => Answer::Absent,
    });
    assert_eq!(asked, ["run sw_vers -productName", "run system_profiler SPDisplaysDataType"]);
    assert_eq!(shown, "Apple M2");
    let (asked, shown) = run(Attribute::Gpu, "Darwin", &|q| match q {
        "run sw_vers -productName" => text("iPhone OS\n"),
        _ => text("      Chipset Model: wrong\n"),
    });
    assert_eq!(asked, ["run sw_vers -productName"]);
    assert_eq!(shown, "Unknown");
}

#[test]
fn gpu_probe_elsewhere_asks_the_pci_tool() {
    let (asked, shown) = run(Attribute::Gpu, "Linux", &|q| match q {
        "run lspci" => text("01:00.0 VGA compatible controller: NVIDIA TU116 (rev a1)\n"),
        _ => Answer::Absent,
    });
    assert_eq!(asked, ["run lspci"]);
    assert_eq!(shown, "01:00.0 VGA compatible controller: NVIDIA TU116");
}

#[test]
fn shell_probe_asks_a_versioned_shell() {
    let (asked, shown) = run(Attribute::Shell, "Linux", &|q| match q {
        "var SHELL" => text("/usr/bin/zsh"),
        "run /usr/bin/zsh --version" => text("zsh 5.9 (x86_64-pc-linux-gnu)\n"),
        _ => Answer::Absent,
    });
    assert_eq!(asked, ["var SHELL", "run /usr/bin/zsh --version"]);
    assert_eq!(shown, "zsh 5.9");
}

#[test]
fn shell_probe_does_not_ask_a_plain_shell() {
    let (asked, shown) = run(Attribute::Shell, "Linux", &|q| match q {
        "var SHELL" => text("/bin/dash"),
        _ => text("wrong"),
    });
    assert_eq!(asked, ["var SHELL"]);
    assert_eq!(shown, "dash");
}

#[test]
fn shell_probe_aborts_without_a_shell() {
    let (asked, shown) = run(Attribute::Shell, "Linux", &silent);
    assert_eq!(asked, ["var SHELL"]);
    assert_eq!(shown, "abort: the environment names no shell: SHELL is not set");
}

#[test]
fn packages_probe_searches_each_manager() {
    let (asked, shown) = run(Attribute::Packages, "Linux", &|q| match q {
        "var PATH" => text("/usr/bin:/bin"),
        "program /usr/bin/dpkg /bin/dpkg" => text("/usr/bin/dpkg"),
        "run dpkg -l" => text("ii  adduser\nii  apt\nii  base-files\n"),
        "program /usr/bin/pacman /bin/pacman" => text("/bin/pacman"),
        "dir /var/lib/pacman/local" => Answer::Count(0),
        _ => Answer::Absent,
    });
    assert_eq!(
        asked,
        [
            "var PATH",
            "program /usr/bin/pacman /bin/pacman",
            "dir /var/lib/pacman/local",
            "program /usr/bin/rpm /bin/rpm",
            "program /usr/bin/emerge /bin/emerge",
            "program /usr/bin/xbps-query /bin/xbps-query",
            "program /usr/bin/dpkg /bin/dpkg",
            "run dpkg -l",
            "program /usr/bin/brew /bin/brew",
            "program /usr/bin/port /bin/port",
        ]
    );
    assert_eq!(shown, "0 pacman, 3 dpkg");
}

#[test]
fn packages_probe_with_dpkg_alone() {
    let machine = |lines: &'static str| {
        move |q: &str| match q {
            "var PATH" => text("/usr/bin"),
            "program /usr/bin/dpkg" => text("/usr/bin/dpkg"),
            "run dpkg -l" => text(lines),
            _ => Answer::Absent,
        }
    };
    assert_eq!(run(Attribute::Packages, "Linux", &machine("")).1, "Unknown");
    assert_eq!(run(Attribute::Packages, "Linux", &machine("ii  apt\n")).1, "1 dpkg");
    assert_eq!(run(Attribute::Packages, "Linux", &machine("a\nb\nc\nd\ne\nf\ng\nh\ni\nj\nk\nl")).1, "12 dpkg");
}

#[test]
fn packages_probe_with_every_manager() {
    let (asked, shown) = run(Attribute::Packages, "Darwin", &|q| {
        if q == "var PATH" {
            text("/opt/bin")
        } else if q.starts_with("program ") {
            text("/opt/bin/it")
        } else if q.starts_with("dir ") {
            Answer::Count(7)
        } else {
            text("one\ntwo\n")
        }
    });
    assert_eq!(asked.len(), 15);
    assert_eq!(asked[11], "program /opt/bin/brew");
    assert_eq!(asked[12], "run brew list -1");
    assert_eq!(asked[14], "run port installed");
    assert_eq!(shown, "7 pacman, 2 rpm, 7 emerge, 2 xbps-query, 2 dpkg, 2 brew, 2 port");
}

#[test]
fn packages_probe_with_xbps_alone() {
    let (asked, shown) = run(Attribute::Packages, "Linux", &|q| match q {
        "var PATH" => text("/usr/bin"),
        "program /usr/bin/xbps-query" => text("/usr/bin/xbps-query"),
        "run xbps-query -l" => text("ii a\nii b\nii c\nii d\n"),
        _ => Answer::Absent,
    });
    assert_eq!(asked.len(), 9);
    assert_eq!(shown, "4 xbps-query");
}

#[test]
fn packages_probe_without_a_search_path() {
    let (asked, shown) = run(Attribute::Packages, "Linux", &silent);
    assert_eq!(asked.len(), 8);
    assert_eq!(asked[1], "program ");
    assert_eq!(shown, "Unknown");
}

#[test]
fn packages_probe_counts_nothing_for_a_manager_that_does_not_answer() {
    let (_, shown) = run(Attribute::Packages, "Linux", &|q| match q {
        "var PATH" => text("/usr/bin"),
        "program /usr/bin/rpm" => text("/usr/bin/rpm"),
        "program /usr/bin/dpkg" => text("/usr/bin/dpkg"),
        _ => Answer::Absent,
    });
    assert_eq!(shown, "0 rpm");
}

#[test]
fn memory_probe_reads_the_counters() {
    let (asked, shown) = run(Attribute::Memory, "Linux", &|_| {
        Answer::Memory(MemoryReading { total_kb: 16384 * 1024, free_kb: 8192 * 1024 })
    });
    assert_eq!(asked, ["memory"]);
    assert_eq!(shown, "8192.00 MB / 16384.00 MB (50.0% used)");
    let (_, shown) = run(Attribute::Memory, "Linux", &|_| Answer::Failed("no /proc".to_string()));
    assert_eq!(shown, "Unknown: no /proc");
    assert_eq!(run(Attribute::Memory, "Linux", &silent).1, "Unknown: ");
}

#[test]
fn uptime_probe_reads_the_counter() {
    let (asked, shown) = run(Attribute::Uptime, "Linux", &|_| Answer::Count(90061));
    assert_eq!(asked, ["uptime"]);
    assert_eq!(shown, "1 days, 01:01:01");
    let (_, shown) = run(Attribute::Uptime, "Linux", &|_| Answer::Failed("boot time unknown".to_string()));
    assert_eq!(shown, "Unknown: boot time unknown");
    assert_eq!(run(Attribute::Uptime, "Linux", &silent).1, "Unknown: ");
}

#[test]
fn every_probe_shows_something_on_a_silent_machine() {
    let all = [
        Attribute::User,
        Attribute::Model,
        Attribute::OsVersion,
        Attribute::Cpu,
        Attribute::Gpu,
        Attribute::Packages,
        Attribute::Shell,
        Attribute::Memory,
        Attribute::Uptime,
    ];
    for os in ["Linux", "Darwin", "FreeBSD", ""] {
        for attribute in all {
            let (_, shown) = run(attribute, os, &silent);
            assert!(!shown.is_empty(), "{:?} {:?}", attribute, os);
        }
    }
}
