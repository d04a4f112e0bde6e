use shipnext::artifact::ArtifactId;
use shipnext::context::{is_plain, ProjectContext};

#[test]
fn native_config_holds_the_context_in_its_fields() {
    let ctx = ProjectContext::new("demoapp", "com.example.demo", "ABCDE12345");
    let payload = ArtifactId::NativeConfig.render(&ctx);

    let parsed: serde_json::Value =
        serde_json::from_str(&payload).expect("the native configuration is valid JSON");
    assert_eq!(parsed["productName"], "demoapp");
    assert_eq!(parsed["identifier"], "com.example.demo");
    assert_eq!(parsed["bundle"]["iOS"]["developmentTeam"], "ABCDE12345");
    assert_eq!(parsed["app"]["windows"][0]["title"], "demoapp");
    assert_eq!(parsed["build"]["devUrl"], "http://localhost:3000");
    assert_eq!(parsed["build"]["frontendDist"], "../out");
    assert_eq!(parsed["build"]["beforeDevCommand"], "npm run dev");
    assert_eq!(parsed["build"]["beforeBuildCommand"], "npm run build");
    assert_eq!(parsed["version"], "0.1.0");
    assert_eq!(parsed["bundle"]["iOS"]["minimumSystemVersion"], "13.0");

    assert_eq!(payload.matches("demoapp").count(), 2);
    assert_eq!(payload.matches("com.example.demo").count(), 1);
    assert_eq!(payload.matches("ABCDE12345").count(), 1);
}

#[test]
fn native_config_of_the_application_itself_is_exact() {
    let payload = ArtifactId::NativeConfig.render(&ProjectContext::shipnext());
    let expected = r#"
{
  "$schema": "https://schema.tauri.app/config/2.0.0-rc",
  "productName": "shipnext",
  "version": "0.1.0",
  "identifier": "com.shipnext.dev",
  "build": {
    "frontendDist": "../out",
    "devUrl": "http://localhost:3000",
    "beforeDevCommand": "npm run dev",
    "beforeBuildCommand": "npm run build"
  },
  "app": {
    "windows": [
      {
        "title": "shipnext",
        "width": 800,
        "height": 600,
        "resizable": true,
        "fullscreen": false
      }
    ],
    "security": {
      "csp": null
    }
  },
  "bundle": {
    "iOS": {
      "developmentTeam": "NXR8WH6TN8",
      "minimumSystemVersion": "13.0"
    },
    "active": true,
    "targets": "all",
    "icon": [
      "icons/32x32.png",
      "icons/128x128.png",
      "icons/128x128@2x.png",
      "icons/icon.icns",
      "icons/icon.ico"
    ]
  }
}
"#;
    assert_eq!(payload, expected);
}

#[test]
fn static_export_config_is_exact_and_ignores_the_context() {
    let expected = r#"
import type { NextConfig } from "next";

const nextConfig: NextConfig = {
  /* config options here */
  output: 'export',
};

export default nextConfig;
"#;
    assert_eq!(ArtifactId::StaticExport.render(&ProjectContext::shipnext()), expected);
    assert_eq!(
        ArtifactId::StaticExport.render(&ProjectContext::new("other", "org.other", "TEAM")),
        expected
    );
}

#[test]
fn rendering_twice_gives_the_same_bytes() {
    let ctx = ProjectContext::new("demoapp", "com.example.demo", "ABCDE12345");
    for id in [ArtifactId::StaticExport, ArtifactId::NativeConfig] {
        assert_eq!(id.render(&ctx).into_bytes(), id.render(&ctx).into_bytes());
    }
}

#[test]
fn dev_url_of_the_context_is_embedded() {
    let ctx = ProjectContext::new("demoapp", "com.example.demo", "ABCDE12345")
        .with_dev_url("http://127.0.0.1:4000");
    let payload = ArtifactId::NativeConfig.render(&ctx);
    let parsed: serde_json::Value = serde_json::from_str(&payload).unwrap();
    assert_eq!(parsed["build"]["devUrl"], "http://127.0.0.1:4000");
}

#[test]
fn context_of_the_application_itself() {
    let ctx = ProjectContext::shipnext();
    assert_eq!(ctx.name, "shipnext");
    assert_eq!(ctx.identifier, "com.shipnext.dev");
    assert_eq!(ctx.team, "NXR8WH6TN8");
    assert_eq!(ctx.dev_url, "http://localhost:3000");
}

#[test]
fn artifacts_are_spoken_of_by_their_labels() {
    assert_eq!(ArtifactId::StaticExport.label(), "next.config");
    assert_eq!(ArtifactId::NativeConfig.label(), "tauri.conf.json");
    assert_eq!(
        ArtifactId::StaticExport.confirmation("next.config.js"),
        "Debug: Updated next.config.js with output: 'export'"
    );
    assert_eq!(
        ArtifactId::NativeConfig.confirmation("src-tauri/tauri.conf.json"),
        "Debug: Configured tauri.conf.json"
    );
    assert_eq!(
        ArtifactId::StaticExport.creation_notice("next.config.ts"),
        "Debug: No next.config file found, creating next.config.ts"
    );
}

#[test]
fn plain_text_holds_no_quote_backslash_or_control_character() {
    let plain = [
        "",
        " ",
        "demoapp",
        "com.example.demo",
        "http://localhost:3000",
        "gr\u{fc}n \u{2713}",
        "a b~\u{7f}",
    ];
    for text in plain {
        assert!(is_plain(text), "{:?}", text);
    }
    let broken =
        ["\"", "a\"b", "\\", "a\\n", "line\nbreak", "tab\t", "\u{0}", "\u{1f}", "end\r"];
    for text in broken {
        assert!(!is_plain(text), "{:?}", text);
    }
}

#[test]
fn context_is_plain_when_each_value_is() {
    assert!(ProjectContext::shipnext().is_plain());
    assert!(ProjectContext::new("demoapp", "com.example.demo", "ABCDE12345").is_plain());
    assert!(!ProjectContext::new("demo\"app", "com.example.demo", "ABCDE12345").is_plain());
    assert!(!ProjectContext::new("demoapp", "com.example\\demo", "ABCDE12345").is_plain());
    assert!(!ProjectContext::new("demoapp", "com.example.demo", "ABCDE\n12345").is_plain());
    assert!(!ProjectContext::new("demoapp", "com.example.demo", "ABCDE12345")
        .with_dev_url("http://localhost:3000/\t")
        .is_plain());
}

#[test]
fn native_config_of_a_plain_context_is_one_json_object() {
    let contexts = [
        ProjectContext::shipnext(),
        ProjectContext::new("demoapp", "com.example.demo", "ABCDE12345"),
        ProjectContext::new("", "", ""),
        ProjectContext::new("Gr\u{fc}n & Blau {1}", "org.\u{4f8b}.app", "T/E:A,M")
            .with_dev_url("https://dev.example:8443/app?x=1#top"),
    ];
    for ctx in contexts {
        assert!(ctx.is_plain());
        let payload = ArtifactId::NativeConfig.render(&ctx);
        let parsed: serde_json::Value = serde_json::from_str(&payload).unwrap();
        let document = parsed.as_object().expect("one JSON object");
        assert_eq!(document["productName"], ctx.name.as_str());
        assert_eq!(document["identifier"], ctx.identifier.as_str());
        assert_eq!(document["build"]["devUrl"], ctx.dev_url.as_str());
        assert_eq!(document["app"]["windows"][0]["title"], ctx.name.as_str());
        assert_eq!(document["bundle"]["iOS"]["developmentTeam"], ctx.team.as_str());
    }
}

#[test]
fn value_that_is_not_plain_breaks_the_native_config() {
    for name in ["demo\"app", "demo\\", "demo\napp"] {
        let ctx = ProjectContext::new(name, "com.example.demo", "ABCDE12345");
        assert!(!ctx.is_plain());
        let payload = ArtifactId::NativeConfig.render(&ctx);
        assert!(serde_json::from_str::<serde_json::Value>(&payload).is_err());
    }
}
