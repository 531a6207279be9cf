use emmylua::error::ResolveError;
use emmylua::platform::{Architecture, ArchiveFormat, Os};
use emmylua::release::{Release, ReleaseAsset};
use emmylua::resolver::{stale_entry_names, Action, Event, InstallStatus, Resolver, ServerHandle};

struct FakeHost {
    configured: Option<String>,
    on_path: Vec<(String, String)>,
    files: Vec<String>,
    release: Result<(String, Vec<(String, String)>), String>,
    download_error: Option<String>,
    list_error: Option<String>,
    entries: Vec<String>,
    probes: usize,
    file_checks: usize,
    fetches: usize,
    downloads: usize,
    reports: Vec<InstallStatus>,
    last_format: Option<ArchiveFormat>,
}

impl FakeHost {
    fn new() -> FakeHost {
        FakeHost {
            configured: None,
            on_path: Vec::new(),
            files: Vec::new(),
            release: Ok((
                "0.9.0".to_string(),
                vec![
                    (
                        "emmylua_ls-linux-x64-glibc.2.17.tar.gz".to_string(),
                        "https://example.com/linux.tar.gz".to_string(),
                    ),
                    (
                        "emmylua_ls-win32-x64.zip".to_string(),
                        "https://example.com/win.zip".to_string(),
                    ),
                ],
            )),
            download_error: None,
            list_error: None,
            entries: vec!["emmylua-0.8.0".to_string(), "notes".to_string()],
            probes: 0,
            file_checks: 0,
            fetches: 0,
            downloads: 0,
            reports: Vec::new(),
            last_format: None,
        }
    }

    fn perform(&mut self, action: Action) -> Result<Event, Result<String, ResolveError>> {
        match action {
            Action::Probe { name } => {
                self.probes += 1;
                let path = self.on_path.iter().find(|(n, _)| *n == name).map(|(_, p)| p.clone());
                Ok(Event::Probed { path })
            }
            Action::CheckFile { path } => {
                self.file_checks += 1;
                Ok(Event::FileChecked { is_file: self.files.contains(&path) })
            }
            Action::Report { status } => {
                self.reports.push(status);
                Ok(Event::Reported)
            }
            Action::FetchLatestRelease { repository } => {
                assert_eq!(repository, "EmmyLuaLs/emmylua-analyzer-rust");
                self.fetches += 1;
                let release = match &self.release {
                    Ok((version, assets)) => Ok(Release {
                        version: version.clone(),
                        assets: assets
                            .iter()
                            .map(|(n, u)| ReleaseAsset { name: n.clone(), download_url: u.clone() })
                            .collect(),
                    }),
                    Err(m) => Err(m.clone()),
                };
                Ok(Event::ReleaseFetched { release })
            }
            Action::Download { url: _, directory, format } => {
                self.downloads += 1;
                self.last_format = Some(format);
                if let Some(e) = &self.download_error {
                    return Ok(Event::Downloaded { result: Err(e.clone()) });
                }
                self.files.push(format!("{directory}/emmylua_ls"));
                self.files.push(format!("{directory}/emmylua_ls.exe"));
                if !self.entries.contains(&directory) {
                    self.entries.push(directory);
                }
                Ok(Event::Downloaded { result: Ok(()) })
            }
            Action::ListWorkingDirectory => match &self.list_error {
                Some(e) => Ok(Event::Listed { entries: Err(e.clone()) }),
                None => Ok(Event::Listed { entries: Ok(self.entries.clone()) }),
            },
            Action::RemoveEntries { names } => {
                self.entries.retain(|e| !names.contains(e));
                self.files.retain(|f| !names.iter().any(|n| f.starts_with(&format!("{n}/"))));
                Ok(Event::Removed)
            }
            Action::Done { path } => Err(Ok(path)),
            Action::Fail { error } => Err(Err(error)),
        }
    }
}

fn resolve(
    host: &mut FakeHost,
    handle: &mut ServerHandle,
    os: Os,
    arch: Architecture,
) -> Result<String, ResolveError> {
    let mut resolver = Resolver::new(os, arch);
    let mut event = Event::Begin { configured_path: host.configured.clone() };
    loop {
        assert!(resolver.accepts_event(&event));
        let action = resolver.step(handle, event);
        match host.perform(action) {
            Ok(next) => event = next,
            Err(outcome) => {
                assert!(resolver.is_finished());
                return outcome;
            }
        }
    }
}

#[test]
fn configured_path_skips_probes_and_network() {
    let mut host = FakeHost::new();
    host.configured = Some("/opt/custom/emmylua_ls".to_string());
    host.on_path.push(("emmylua_ls".to_string(), "/usr/bin/emmylua_ls".to_string()));
    let mut handle = ServerHandle::new();
    let r = resolve(&mut host, &mut handle, Os::Linux, Architecture::X8664);
    assert_eq!(r.unwrap(), "/opt/custom/emmylua_ls");
    assert_eq!(host.probes, 0);
    assert_eq!(host.file_checks, 0);
    assert_eq!(host.fetches, 0);
    assert_eq!(host.downloads, 0);
    assert!(handle.cached_path().is_none());
}

#[test]
fn primary_executable_on_path_wins() {
    let mut host = FakeHost::new();
    host.on_path.push(("emmylua_ls".to_string(), "/usr/bin/emmylua_ls".to_string()));
    host.on_path.push(("emmylua".to_string(), "/usr/bin/emmylua".to_string()));
    let mut handle = ServerHandle::new();
    let r = resolve(&mut host, &mut handle, Os::Linux, Architecture::X8664);
    assert_eq!(r.unwrap(), "/usr/bin/emmylua_ls");
    assert_eq!(host.probes, 1);
    assert_eq!(host.fetches, 0);
}

#[test]
fn alias_executable_on_path_is_second_choice() {
    let mut host = FakeHost::new();
    host.on_path.push(("emmylua".to_string(), "/usr/bin/emmylua".to_string()));
    let mut handle = ServerHandle::new();
    let r = resolve(&mut host, &mut handle, Os::Mac, Architecture::Aarch64);
    assert_eq!(r.unwrap(), "/usr/bin/emmylua");
    assert_eq!(host.probes, 2);
    assert_eq!(host.fetches, 0);
}

#[test]
fn existing_cached_file_is_reused_without_network() {
    let mut host = FakeHost::new();
    host.files.push("emmylua-0.8.0/emmylua_ls".to_string());
    let mut handle = ServerHandle::with_cached_path("emmylua-0.8.0/emmylua_ls".to_string());
    let r = resolve(&mut host, &mut handle, Os::Linux, Architecture::X8664);
    assert_eq!(r.unwrap(), "emmylua-0.8.0/emmylua_ls");
    assert_eq!(host.fetches, 0);
    assert_eq!(host.downloads, 0);
    assert!(host.reports.is_empty());
}

#[test]
fn deleted_cached_file_leads_to_fetch() {
    let mut host = FakeHost::new();
    let mut handle = ServerHandle::with_cached_path("emmylua-0.8.0/emmylua_ls".to_string());
    let r = resolve(&mut host, &mut handle, Os::Linux, Architecture::X8664);
    assert_eq!(r.unwrap(), "emmylua-0.9.0/emmylua_ls");
    assert_eq!(host.fetches, 1);
    assert_eq!(host.downloads, 1);
    assert_eq!(handle.cached_path().unwrap(), "emmylua-0.9.0/emmylua_ls");
}

#[test]
fn provisioning_leaves_only_the_new_version_directory() {
    let mut host = FakeHost::new();
    let mut handle = ServerHandle::new();
    let r = resolve(&mut host, &mut handle, Os::Linux, Architecture::X8664);
    assert_eq!(r.unwrap(), "emmylua-0.9.0/emmylua_ls");
    assert_eq!(host.entries, vec!["emmylua-0.9.0".to_string()]);
    assert_eq!(host.reports, vec![InstallStatus::CheckingForUpdate, InstallStatus::Downloading]);
    assert_eq!(host.last_format, Some(ArchiveFormat::GzipTar));
    assert_eq!(handle.cached_path().unwrap(), "emmylua-0.9.0/emmylua_ls");
}

#[test]
fn windows_provisioning_uses_zip_and_exe() {
    let mut host = FakeHost::new();
    let mut handle = ServerHandle::new();
    let r = resolve(&mut host, &mut handle, Os::Windows, Architecture::X8664);
    assert_eq!(r.unwrap(), "emmylua-0.9.0/emmylua_ls.exe");
    assert_eq!(host.last_format, Some(ArchiveFormat::Zip));
}

#[test]
fn second_provisioning_downloads_nothing() {
    let mut host = FakeHost::new();
    let mut first = ServerHandle::new();
    resolve(&mut host, &mut first, Os::Linux, Architecture::X8664).unwrap();
    assert_eq!(host.downloads, 1);
    let entries_after_first = host.entries.clone();
    let mut second = ServerHandle::new();
    let r = resolve(&mut host, &mut second, Os::Linux, Architecture::X8664);
    assert_eq!(r.unwrap(), "emmylua-0.9.0/emmylua_ls");
    assert_eq!(host.downloads, 1);
    assert_eq!(host.entries, entries_after_first);
    assert_eq!(second.cached_path().unwrap(), "emmylua-0.9.0/emmylua_ls");
}

#[test]
fn x86_fails_before_any_network_call() {
    for os in [Os::Mac, Os::Linux, Os::Windows] {
        let mut host = FakeHost::new();
        let mut handle = ServerHandle::new();
        let r = resolve(&mut host, &mut handle, os, Architecture::X86);
        assert!(matches!(r, Err(ResolveError::UnsupportedPlatform)));
        assert_eq!(host.fetches, 0);
        assert_eq!(host.downloads, 0);
        assert!(host.reports.is_empty());
    }
}

#[test]
fn missing_asset_names_the_expected_file() {
    let mut host = FakeHost::new();
    let mut handle = ServerHandle::new();
    let r = resolve(&mut host, &mut handle, Os::Mac, Architecture::Aarch64);
    match r {
        Err(e) => {
            let message = e.message();
            assert!(message.contains("emmylua_ls-darwin-arm64.tar.gz"));
            assert_eq!(message, "no asset found matching \"emmylua_ls-darwin-arm64.tar.gz\"");
            assert!(matches!(e, ResolveError::AssetNotFound { .. }));
        }
        Ok(p) => panic!("unexpected path {p}"),
    }
    assert_eq!(host.downloads, 0);
}

#[test]
fn release_query_failure_is_release_not_found() {
    let mut host = FakeHost::new();
    host.release = Err("no release found".to_string());
    let mut handle = ServerHandle::new();
    let r = resolve(&mut host, &mut handle, Os::Linux, Architecture::X8664);
    let e = r.unwrap_err();
    assert!(matches!(e, ResolveError::ReleaseNotFound { .. }));
    assert_eq!(e.message(), "no release found");
}

#[test]
fn download_failure_is_reported_with_context() {
    let mut host = FakeHost::new();
    host.download_error = Some("status 404".to_string());
    let mut handle = ServerHandle::new();
    let r = resolve(&mut host, &mut handle, Os::Linux, Architecture::X8664);
    let e = r.unwrap_err();
    assert!(matches!(e, ResolveError::DownloadFailed { .. }));
    assert_eq!(e.message(), "failed to download file: status 404");
    assert!(handle.cached_path().is_none());
}

#[test]
fn listing_failure_is_fatal() {
    let mut host = FakeHost::new();
    host.list_error = Some("permission denied".to_string());
    let mut handle = ServerHandle::new();
    let r = resolve(&mut host, &mut handle, Os::Linux, Architecture::X8664);
    let e = r.unwrap_err();
    assert!(matches!(e, ResolveError::DirectoryListFailed { .. }));
    assert_eq!(e.message(), "failed to list working directory permission denied");
    assert!(handle.cached_path().is_none());
}

#[test]
fn unsupported_platform_message() {
    assert_eq!(ResolveError::UnsupportedPlatform.message(), "unsupported platform x86");
}

#[test]
fn stale_entries_keep_order_and_drop_only_the_kept_name() {
    let entries = vec![
        "a".to_string(),
        "emmylua-1.0".to_string(),
        "b".to_string(),
        "emmylua-1.0".to_string(),
    ];
    let names = stale_entry_names(&entries, &"emmylua-1.0".to_string());
    assert_eq!(names, vec!["a".to_string(), "b".to_string()]);
    assert!(stale_entry_names(&Vec::new(), &"x".to_string()).is_empty());
}

#[test]
fn step_rejects_out_of_order_events() {
    let resolver = Resolver::new(Os::Linux, Architecture::X8664);
    assert!(!resolver.accepts_event(&Event::Reported));
    assert!(resolver.accepts_event(&Event::Begin { configured_path: None }));
    assert!(!resolver.is_finished());
}
