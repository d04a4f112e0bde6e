//! The configuration artifacts that a plan writes.
//!
//! An artifact is fixed text with, at most, a few identifiers of the project
//! context substituted into it. Rendering reads nothing but its arguments, so
//! the same artifact for the same context is the same text, byte for byte.

use vstd::prelude::*;
use crate::context::{ContextView, ProjectContext};

verus! {

/// Which artifact to render.
#[derive(Clone, Copy, Debug, PartialEq, Eq, Structural)]
pub enum ArtifactId {
    /// The frontend configuration that switches on the static-export build.
    StaticExport,
    /// The configuration of the native application.
    NativeConfig,
}

/// The whole static-export configuration.
pub const STATIC_EXPORT: &'static str = r#"
import type { NextConfig } from "next";

const nextConfig: NextConfig = {
  /* config options here */
  output: 'export',
};

export default nextConfig;
"#;

/// The native configuration up to the product name.
pub const NATIVE_OPENING: &'static str = r#"
{
  "$schema": "https://schema.tauri.app/config/2.0.0-rc",
  "productName": ""#;

/// The native configuration between the product name and the identifier.
pub const NATIVE_BEFORE_IDENTIFIER: &'static str = r#"",
  "version": "0.1.0",
  "identifier": ""#;

/// The native configuration between the identifier and the development URL.
pub const NATIVE_BEFORE_DEV_URL: &'static str = r#"",
  "build": {
    "frontendDist": "../out",
    "devUrl": ""#;

/// The native configuration between the development URL and the window title.
pub const NATIVE_BEFORE_TITLE: &'static str = r#"",
    "beforeDevCommand": "npm run dev",
    "beforeBuildCommand": "npm run build"
  },
  "app": {
    "windows": [
      {
        "title": ""#;

/// The native configuration between the window title and the signing team.
pub const NATIVE_BEFORE_TEAM: &'static str = r#"",
        "width": 800,
        "height": 600,
        "resizable": true,
        "fullscreen": false
      }
    ],
    "security": {
      "csp": null
    }
  },
  "bundle": {
    "iOS": {
      "developmentTeam": ""#;

/// The native configuration after the signing team.
pub const NATIVE_CLOSING: &'static str = r#"",
      "minimumSystemVersion": "13.0"
    },
    "active": true,
    "targets": "all",
    "icon": [
      "icons/32x32.png",
      "icons/128x128.png",
      "icons/128x128@2x.png",
      "icons/icon.icns",
      "icons/icon.ico"
    ]
  }
}
"#;

/// The native configuration for a context: the fixed text with the name
/// (twice: as product name and as window title), the identifier, the
/// development URL and the signing team in their places.
///
/// Each value stands between the quotes of a JSON string and goes in as it
/// is, with nothing escaped. The values of a plain context, see
/// [`ContextView::is_plain`], stay inside their strings. A quote, a backslash
/// or a control character in a value can end or break the string it stands
/// in, and the text is then no JSON document.
pub open spec fn native_config(ctx: ContextView) -> Seq<char> {
    NATIVE_OPENING@ + ctx.name + NATIVE_BEFORE_IDENTIFIER@ + ctx.identifier
        + NATIVE_BEFORE_DEV_URL@ + ctx.dev_url + NATIVE_BEFORE_TITLE@ + ctx.name
        + NATIVE_BEFORE_TEAM@ + ctx.team + NATIVE_CLOSING@
}

/// The text of an artifact for a context.
pub open spec fn rendered(id: ArtifactId, ctx: ContextView) -> Seq<char> {
    match id {
        ArtifactId::StaticExport => STATIC_EXPORT@,
        ArtifactId::NativeConfig => native_config(ctx),
    }
}

/// The short name by which the observer stream speaks of an artifact.
pub open spec fn label(id: ArtifactId) -> Seq<char> {
    match id {
        ArtifactId::StaticExport => "next.config"@,
        ArtifactId::NativeConfig => "tauri.conf.json"@,
    }
}

/// The line that confirms an artifact written to `path`.
pub open spec fn confirmation(id: ArtifactId, path: Seq<char>) -> Seq<char> {
    match id {
        ArtifactId::StaticExport => "Debug: Updated "@ + path + " with output: 'export'"@,
        ArtifactId::NativeConfig => "Debug: Configured "@ + label(id),
    }
}

/// The line that tells that no candidate destination exists yet and that
/// `path` is created.
pub open spec fn creation_notice(id: ArtifactId, path: Seq<char>) -> Seq<char> {
    "Debug: No "@ + label(id) + " file found, creating "@ + path
}

impl ArtifactId {
    /// Renders the artifact for `ctx`. The values of the context go in as they
    /// are, so the native configuration is meant for a context that
    /// [`ProjectContext::is_plain`].
    pub fn render(self, ctx: &ProjectContext) -> (payload: String)
        ensures
            payload@ == rendered(self, ctx@),
    {
        match self {
            ArtifactId::StaticExport => String::from_str(STATIC_EXPORT),
            ArtifactId::NativeConfig => {
                let mut payload = String::from_str(NATIVE_OPENING);
                payload.append(ctx.name.as_str());
                payload.append(NATIVE_BEFORE_IDENTIFIER);
                payload.append(ctx.identifier.as_str());
                payload.append(NATIVE_BEFORE_DEV_URL);
                payload.append(ctx.dev_url.as_str());
                payload.append(NATIVE_BEFORE_TITLE);
                payload.append(ctx.name.as_str());
                payload.append(NATIVE_BEFORE_TEAM);
                payload.append(ctx.team.as_str());
                payload.append(NATIVE_CLOSING);
                payload
            },
        }
    }

    /// The artifact's short name.
    pub fn label(self) -> (name: String)
        ensures
            name@ == label(self),
    {
        match self {
            ArtifactId::StaticExport => String::from_str("next.config"),
            ArtifactId::NativeConfig => String::from_str("tauri.conf.json"),
        }
    }

    /// The line that confirms the artifact written to `path`.
    pub fn confirmation(self, path: &str) -> (text: String)
        ensures
            text@ == confirmation(self, path@),
    {
        match self {
            ArtifactId::StaticExport => {
                let mut text = String::from_str("Debug: Updated ");
                text.append(path);
                text.append(" with output: 'export'");
                text
            },
            ArtifactId::NativeConfig => {
                let mut text = String::from_str("Debug: Configured ");
                text.append(self.label().as_str());
                text
            },
        }
    }

    /// The line that tells that `path` is created because no candidate
    /// destination exists yet.
    pub fn creation_notice(self, path: &str) -> (text: String)
        ensures
            text@ == creation_notice(self, path@),
    {
        let mut text = String::from_str("Debug: No ");
        text.append(self.label().as_str());
        text.append(" file found, creating ");
        text.append(path);
        text
    }
}

} // verus!
