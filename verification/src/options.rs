//! Launch and download configuration: window resolution, launcher
//! identity, proxy settings, and the explicit game-options record with
//! its builder and defaults.

use vstd::prelude::*;

use crate::progress::ProgressReporter;

verus! {

/// A requested game window size.
#[derive(Debug, Clone, Copy, PartialEq, Eq, Structural)]
pub struct MinecraftResolution(pub u32, pub u32);

impl MinecraftResolution {
    pub fn new(width: u32, height: u32) -> (r: MinecraftResolution)
        ensures
            r.0 == width,
            r.1 == height,
    {
        MinecraftResolution(width, height)
    }

    pub fn width(&self) -> (r: u32)
        ensures
            r == self.0,
    {
        self.0
    }

    pub fn height(&self) -> (r: u32)
        ensures
            r == self.1,
    {
        self.1
    }
}

/// The launcher's advertised identity.
#[derive(Debug, Clone)]
pub struct LauncherOptions {
    pub launcher_name: String,
    pub launcher_version: String,
}

impl LauncherOptions {
    pub fn new(launcher_name: &str, launcher_version: &str) -> (r: LauncherOptions)
        ensures
            r.launcher_name@ == launcher_name@,
            r.launcher_version@ == launcher_version@,
    {
        LauncherOptions {
            launcher_name: launcher_name.to_owned(),
            launcher_version: launcher_version.to_owned(),
        }
    }
}

/// Proxy routing applied uniformly to every request the downloader
/// issues; credentials are optional and only used when both parts are
/// present.
#[derive(Debug, Clone)]
pub enum ProxyOptions {
    Proxy { host: String, port: u16, username: Option<String>, password: Option<String> },
    NoProxy,
}

impl Default for ProxyOptions {
    fn default() -> (r: ProxyOptions)
        ensures
            r is NoProxy,
    {
        ProxyOptions::NoProxy
    }
}

impl ProxyOptions {
    /// The host and port a proxy connection must be made to, if any:
    /// the compute half of building the proxy for the network client.
    pub fn proxy_authority(&self) -> (r: Option<(String, u16)>)
        ensures
            (self matches ProxyOptions::Proxy { host, port, .. } ==> (r matches Some(a) && a.0@
                == host@ && a.1 == port)),
            (self is NoProxy ==> r is None),
    {
        match self {
            ProxyOptions::Proxy { host, port, .. } => Some((host.clone(), *port)),
            ProxyOptions::NoProxy => None,
        }
    }

    /// The basic-auth credentials to attach, present only when both the
    /// username and the password are configured.
    pub fn proxy_credentials(&self) -> (r: Option<(String, String)>)
        ensures
            (r is Some <==> (self matches ProxyOptions::Proxy { username, password, .. }
                && username is Some && password is Some)),
            (self matches ProxyOptions::Proxy { username, password, .. } ==> (username is Some
                && password is Some ==> (r matches Some(c) && c.0@ == username->0@ && c.1@
                == password->0@))),
    {
        match self {
            ProxyOptions::Proxy { username: Some(u), password: Some(p), .. } => {
                Some((u.clone(), p.clone()))
            },
            _ => None,
        }
    }
}

/// A game version identifier from the manifest data.
#[derive(Debug, Clone)]
pub struct MCVersion {
    pub id: String,
}

/// The authenticated user a launch is prepared for.
#[derive(Debug, Clone)]
pub struct UserAuthentication {
    pub username: String,
    pub access_token: Option<String>,
}

/// Which optional rule features apply to this environment.
#[derive(Debug, Clone, Copy, PartialEq, Eq, Structural)]
pub enum RuleFeatureType {
    IsDemoUser,
    HasCustomResolution,
}

/// The feature flags the manifest rules are evaluated against; a flag
/// left unset means the feature is not declared either way.
#[derive(Debug, Clone, Copy, PartialEq, Eq, Structural)]
pub struct EnvironmentFeatures {
    pub is_demo_user: Option<bool>,
    pub has_custom_resolution: Option<bool>,
}

impl EnvironmentFeatures {
    pub fn new() -> (r: EnvironmentFeatures)
        ensures
            r.is_demo_user is None,
            r.has_custom_resolution is None,
    {
        EnvironmentFeatures { is_demo_user: None, has_custom_resolution: None }
    }

    pub fn set_feature(&mut self, feature: RuleFeatureType, value: bool)
        ensures
            (feature is IsDemoUser ==> final(self).is_demo_user == Some(value)
                && final(self).has_custom_resolution == old(self).has_custom_resolution),
            (feature is HasCustomResolution ==> final(self).has_custom_resolution == Some(value)
                && final(self).is_demo_user == old(self).is_demo_user),
    {
        match feature {
            RuleFeatureType::IsDemoUser => {
                self.is_demo_user = Some(value);
            },
            RuleFeatureType::HasCustomResolution => {
                self.has_custom_resolution = Some(value);
            },
        }
    }
}

/// Everything a launch and its downloads are configured by. Built
/// through `GameOptionsBuilder`, which supplies the defaults.
#[derive(Debug)]
pub struct GameOptions {
    pub version: MCVersion,
    pub game_dir: String,
    pub proxy: ProxyOptions,
    pub resolution: Option<MinecraftResolution>,
    pub java_path: String,
    pub authentication: UserAuthentication,
    pub demo: Option<bool>,
    pub launcher_options: Option<LauncherOptions>,
    pub substitutor_overrides: Vec<(String, String)>,
    pub jvm_args: Option<Vec<String>>,
    pub progress_reporter: ProgressReporter,
    pub max_concurrent_downloads: u16,
    pub max_download_attempts: u8,
}

impl GameOptions {
    /// Derives the rule-feature flags from the options: the demo flag
    /// is declared exactly when a demo choice was made, and a custom
    /// resolution is declared exactly when one was requested.
    pub fn env_features(&self) -> (r: EnvironmentFeatures)
        ensures
            r.is_demo_user == self.demo,
            r.has_custom_resolution == (if self.resolution is Some {
                Some(true)
            } else {
                None::<bool>
            }),
    {
        let mut env_features = EnvironmentFeatures::new();
        match self.demo {
            Some(demo) => {
                env_features.set_feature(RuleFeatureType::IsDemoUser, demo);
            },
            None => {},
        }
        if self.resolution.is_some() {
            env_features.set_feature(RuleFeatureType::HasCustomResolution, true);
        }
        env_features
    }
}

/// Which required option a build was missing.
#[derive(Debug, Clone, Copy, PartialEq, Eq, Structural)]
pub enum GameOptionsBuilderError {
    MissingVersion,
    MissingGameDir,
    MissingJavaPath,
    MissingAuthentication,
}

/// The explicit configuration record behind `GameOptions`: every option
/// is set through a fluent setter, and `build` fills in each default -
/// no proxy, 16 concurrent downloads, 5 attempts per artifact.
#[derive(Debug)]
pub struct GameOptionsBuilder {
    pub version: Option<MCVersion>,
    pub game_dir: Option<String>,
    pub proxy: Option<ProxyOptions>,
    pub resolution: Option<MinecraftResolution>,
    pub java_path: Option<String>,
    pub authentication: Option<UserAuthentication>,
    pub demo: Option<bool>,
    pub launcher_options: Option<LauncherOptions>,
    pub substitutor_overrides: Option<Vec<(String, String)>>,
    pub jvm_args: Option<Vec<String>>,
    pub progress_reporter: Option<ProgressReporter>,
    pub max_concurrent_downloads: Option<u16>,
    pub max_download_attempts: Option<u8>,
}

impl Default for GameOptionsBuilder {
    fn default() -> (r: GameOptionsBuilder)
        ensures
            r.version is None,
            r.game_dir is None,
            r.java_path is None,
            r.authentication is None,
    {
        GameOptionsBuilder::new()
    }
}

impl GameOptionsBuilder {
    pub fn new() -> (r: GameOptionsBuilder)
        ensures
            r.version is None,
            r.game_dir is None,
            r.proxy is None,
            r.resolution is None,
            r.java_path is None,
            r.authentication is None,
            r.demo is None,
            r.launcher_options is None,
            r.substitutor_overrides is None,
            r.jvm_args is None,
            r.progress_reporter is None,
            r.max_concurrent_downloads is None,
            r.max_download_attempts is None,
    {
        GameOptionsBuilder {
            version: None,
            game_dir: None,
            proxy: None,
            resolution: None,
            java_path: None,
            authentication: None,
            demo: None,
            launcher_options: None,
            substitutor_overrides: None,
            jvm_args: None,
            progress_reporter: None,
            max_concurrent_downloads: None,
            max_download_attempts: None,
        }
    }

    pub fn version(self, version: MCVersion) -> (r: GameOptionsBuilder)
        ensures
            r == (GameOptionsBuilder { version: Some(version), ..self }),
    {
        GameOptionsBuilder { version: Some(version), ..self }
    }

    pub fn game_dir(self, game_dir: String) -> (r: GameOptionsBuilder)
        ensures
            r == (GameOptionsBuilder { game_dir: Some(game_dir), ..self }),
    {
        GameOptionsBuilder { game_dir: Some(game_dir), ..self }
    }

    pub fn proxy(self, proxy: ProxyOptions) -> (r: GameOptionsBuilder)
        ensures
            r == (GameOptionsBuilder { proxy: Some(proxy), ..self }),
    {
        GameOptionsBuilder { proxy: Some(proxy), ..self }
    }

    pub fn resolution(self, resolution: MinecraftResolution) -> (r: GameOptionsBuilder)
        ensures
            r == (GameOptionsBuilder { resolution: Some(resolution), ..self }),
    {
        GameOptionsBuilder { resolution: Some(resolution), ..self }
    }

    pub fn java_path(self, java_path: String) -> (r: GameOptionsBuilder)
        ensures
            r == (GameOptionsBuilder { java_path: Some(java_path), ..self }),
    {
        GameOptionsBuilder { java_path: Some(java_path), ..self }
    }

    pub fn authentication(self, authentication: UserAuthentication) -> (r: GameOptionsBuilder)
        ensures
            r == (GameOptionsBuilder { authentication: Some(authentication), ..self }),
    {
        GameOptionsBuilder { authentication: Some(authentication), ..self }
    }

    pub fn demo(self, demo: bool) -> (r: GameOptionsBuilder)
        ensures
            r == (GameOptionsBuilder { demo: Some(demo), ..self }),
    {
        GameOptionsBuilder { demo: Some(demo), ..self }
    }

    pub fn launcher_options(self, launcher_options: LauncherOptions) -> (r: GameOptionsBuilder)
        ensures
            r == (GameOptionsBuilder { launcher_options: Some(launcher_options), ..self }),
    {
        GameOptionsBuilder { launcher_options: Some(launcher_options), ..self }
    }

    pub fn substitutor_overrides(self, overrides: Vec<(String, String)>) -> (r: GameOptionsBuilder)
        ensures
            r == (GameOptionsBuilder { substitutor_overrides: Some(overrides), ..self }),
    {
        GameOptionsBuilder { substitutor_overrides: Some(overrides), ..self }
    }

    pub fn jvm_args(self, jvm_args: Vec<String>) -> (r: GameOptionsBuilder)
        ensures
            r == (GameOptionsBuilder { jvm_args: Some(jvm_args), ..self }),
    {
        GameOptionsBuilder { jvm_args: Some(jvm_args), ..self }
    }

    pub fn max_concurrent_downloads(self, n: u16) -> (r: GameOptionsBuilder)
        ensures
            r == (GameOptionsBuilder { max_concurrent_downloads: Some(n), ..self }),
    {
        GameOptionsBuilder { max_concurrent_downloads: Some(n), ..self }
    }

    pub fn max_download_attempts(self, n: u8) -> (r: GameOptionsBuilder)
        ensures
            r == (GameOptionsBuilder { max_download_attempts: Some(n), ..self }),
    {
        GameOptionsBuilder { max_download_attempts: Some(n), ..self }
    }

    /// Hands the builder a progress reporter by value.
    pub fn progress_reporter(self, progress_reporter: ProgressReporter) -> (r: GameOptionsBuilder)
        ensures
            r == (GameOptionsBuilder { progress_reporter: Some(progress_reporter), ..self }),
    {
        GameOptionsBuilder { progress_reporter: Some(progress_reporter), ..self }
    }

    /// Hands the builder a shared reporter by reference, copying its
    /// current aggregate.
    pub fn progress_reporter_arc(self, reporter: &ProgressReporter) -> (r: GameOptionsBuilder)
        ensures
            (r.progress_reporter matches Some(p) && p == *reporter),
            r.version == self.version,
            r.game_dir == self.game_dir,
            r.proxy == self.proxy,
            r.resolution == self.resolution,
            r.java_path == self.java_path,
            r.authentication == self.authentication,
            r.demo == self.demo,
            r.launcher_options == self.launcher_options,
            r.substitutor_overrides == self.substitutor_overrides,
            r.jvm_args == self.jvm_args,
            r.max_concurrent_downloads == self.max_concurrent_downloads,
            r.max_download_attempts == self.max_download_attempts,
    {
        let copy = ProgressReporter {
            total_items: reporter.total_items,
            completed_items: reporter.completed_items,
            total_bytes: reporter.total_bytes,
            completed_bytes: reporter.completed_bytes,
            current_label: reporter.current_label.clone(),
        };
        GameOptionsBuilder { progress_reporter: Some(copy), ..self }
    }

    /// Assembles the record. The version, game directory, java path and
    /// authentication are required; everything else falls back to its
    /// default. The error names the first missing required option, in
    /// field order.
    pub fn build(self) -> (r: Result<GameOptions, GameOptionsBuilderError>)
        ensures
            (r is Ok <==> self.version is Some && self.game_dir is Some && self.java_path is Some
                && self.authentication is Some),
            (r matches Ok(o) ==> {
                &&& o.version == self.version->0
                &&& o.game_dir == self.game_dir->0
                &&& (self.proxy is Some ==> o.proxy == self.proxy->0)
                &&& (self.proxy is None ==> o.proxy is NoProxy)
                &&& o.resolution == self.resolution
                &&& o.java_path == self.java_path->0
                &&& o.authentication == self.authentication->0
                &&& o.demo == self.demo
                &&& o.launcher_options == self.launcher_options
                &&& (self.jvm_args is Some ==> o.jvm_args == self.jvm_args)
                &&& (self.jvm_args is None ==> o.jvm_args is None)
                &&& (self.substitutor_overrides is Some ==> o.substitutor_overrides
                    == self.substitutor_overrides->0)
                &&& (self.substitutor_overrides is None ==> o.substitutor_overrides@.len() == 0)
                &&& (self.progress_reporter is Some ==> o.progress_reporter
                    == self.progress_reporter->0)
                &&& (self.progress_reporter is None ==> o.progress_reporter.total_items == 0
                    && o.progress_reporter.completed_items == 0
                    && o.progress_reporter.total_bytes == 0
                    && o.progress_reporter.completed_bytes == 0)
                &&& o.max_concurrent_downloads == (if self.max_concurrent_downloads is Some {
                    self.max_concurrent_downloads->0
                } else {
                    16u16
                })
                &&& o.max_download_attempts == (if self.max_download_attempts is Some {
                    self.max_download_attempts->0
                } else {
                    5u8
                })
            }),
            (self.version is None ==> (r matches Err(e) && e
                == GameOptionsBuilderError::MissingVersion)),
            (self.version is Some && self.game_dir is None ==> (r matches Err(e) && e
                == GameOptionsBuilderError::MissingGameDir)),
            (self.version is Some && self.game_dir is Some && self.java_path is None ==> (r
                matches Err(e) && e == GameOptionsBuilderError::MissingJavaPath)),
            (self.version is Some && self.game_dir is Some && self.java_path is Some
                && self.authentication is None ==> (r matches Err(e) && e
                == GameOptionsBuilderError::MissingAuthentication)),
    {
        let GameOptionsBuilder {
            version,
            game_dir,
            proxy,
            resolution,
            java_path,
            authentication,
            demo,
            launcher_options,
            substitutor_overrides,
            jvm_args,
            progress_reporter,
            max_concurrent_downloads,
            max_download_attempts,
        } = self;
        let version = match version {
            Some(v) => v,
            None => {
                return Err(GameOptionsBuilderError::MissingVersion);
            },
        };
        let game_dir = match game_dir {
            Some(v) => v,
            None => {
                return Err(GameOptionsBuilderError::MissingGameDir);
            },
        };
        let java_path = match java_path {
            Some(v) => v,
            None => {
                return Err(GameOptionsBuilderError::MissingJavaPath);
            },
        };
        let authentication = match authentication {
            Some(v) => v,
            None => {
                return Err(GameOptionsBuilderError::MissingAuthentication);
            },
        };
        let proxy = match proxy {
            Some(p) => p,
            None => ProxyOptions::NoProxy,
        };
        let substitutor_overrides = match substitutor_overrides {
            Some(s) => s,
            None => Vec::new(),
        };
        let progress_reporter = match progress_reporter {
            Some(p) => p,
            None => ProgressReporter::new(),
        };
        let max_concurrent_downloads = match max_concurrent_downloads {
            Some(n) => n,
            None => 16,
        };
        let max_download_attempts = match max_download_attempts {
            Some(n) => n,
            None => 5,
        };
        Ok(
            GameOptions {
                version,
                game_dir,
                proxy,
                resolution,
                java_path,
                authentication,
                demo,
                launcher_options,
                substitutor_overrides,
                jvm_args,
                progress_reporter,
                max_concurrent_downloads,
                max_download_attempts,
            },
        )
    }
}

} // verus!
