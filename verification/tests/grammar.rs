use lazy_regex::Regex;
use package_json_parser::grammar::name::matches_package_name;
use package_json_parser::grammar::package_manager::matches_package_manager;
use package_json_parser::grammar::version::matches_version;
use package_json_parser::grammar::web::{matches_email, matches_url};
use package_json_parser::grammar::words::{
    matches_access, matches_license, matches_module_type, matches_tag,
};

const NAME: &str = r"^(?:(?:@(?:[a-z0-9-*~][a-z0-9-*._~]*)?/[a-z0-9-._~])|[a-z0-9-~])[a-z0-9-._~]*$";
const VERSION: &str = r"^(0|[1-9]\d*)\.(0|[1-9]\d*)\.(0|[1-9]\d*)(?:-((?:0|[1-9]\d*|\d*[a-zA-Z-][0-9a-zA-Z-]*)(?:\.(?:0|[1-9]\d*|\d*[a-zA-Z-][0-9a-zA-Z-]*))*))?(?:\+([0-9a-zA-Z-]+(?:\.[0-9a-zA-Z-]+)*))?$";
const PACKAGE_MANAGER: &str = r"^(npm|pnpm|yarn|bun)@\d+\.\d+\.\d+(-.+)?$";
const TAG: &str = r"^[a-zA-Z0-9-_.]+$";
const EMAIL: &str = r"^[a-zA-Z0-9._%+-]+@[a-zA-Z0-9.-]+\.[a-zA-Z]{2,}$";
const URL: &str = r"^https?:\/\/(?:www\.)?[-a-zA-Z0-9@:%._\+~#=]{1,256}\.[a-zA-Z0-9()]{1,6}\b(?:[-a-zA-Z0-9()@:%_\+.~#?&//=]*)$";

/// Every string over `alphabet` of at most `longest` characters, each
/// after `prefix`.
fn all_strings(prefix: &str, alphabet: &[char], longest: usize) -> Vec<String> {
    let mut all = vec![prefix.to_string()];
    let mut last = vec![prefix.to_string()];
    for _ in 0..longest {
        let mut next = Vec::new();
        for s in &last {
            for c in alphabet {
                let mut longer = s.clone();
                longer.push(*c);
                next.push(longer);
            }
        }
        all.extend(next.iter().cloned());
        last = next;
    }
    all
}

/// Strings made by choosing pieces at random, the same ones on every run.
fn mixed_strings(pieces: &[&str], count: usize, longest: usize) -> Vec<String> {
    let mut state: u64 = 0x2545_f491_4f6c_dd1d;
    let mut step = move || {
        state ^= state << 13;
        state ^= state >> 7;
        state ^= state << 17;
        state
    };
    let mut all = Vec::new();
    for _ in 0..count {
        let n = (step() % (longest as u64 + 1)) as usize;
        let mut s = String::new();
        for _ in 0..n {
            s.push_str(pieces[(step() % pieces.len() as u64) as usize]);
        }
        all.push(s);
    }
    all
}

/// Holds the matcher against the pattern on every input, and says how
/// many of the inputs match.
fn agrees(pattern: &str, matcher: fn(&str) -> bool, inputs: &[String]) -> usize {
    let regex = Regex::new(pattern).unwrap();
    let mut accepted = 0;
    for input in inputs {
        let expected = regex.is_match(input);
        assert_eq!(matcher(input), expected, "on {input:?}");
        if expected {
            accepted += 1;
        }
    }
    assert!(accepted < inputs.len());
    accepted
}

#[test]
fn plain_and_scoped_names_match() {
    assert!(matches_package_name("test"));
    assert!(matches_package_name("@scope/pkg"));
    assert!(matches_package_name("@/pkg"));
    assert!(matches_package_name("-"));
    assert!(!matches_package_name("teYst"));
    assert!(!matches_package_name(""));
    assert!(!matches_package_name(".hidden"));
    assert!(!matches_package_name("_private"));
    assert!(!matches_package_name("@scope/"));
    assert!(!matches_package_name("@scope"));
    assert!(!matches_package_name("@.scope/pkg"));
    assert!(!matches_package_name("@scope/a/b"));
}

#[test]
fn names_agree_with_the_pattern() {
    let mut accepted = 0;
    accepted += agrees(NAME, matches_package_name, &all_strings("", &['a', '9', '@', '/', '.', '*', '~', 'A'], 5));
    accepted += agrees(
        NAME,
        matches_package_name,
        &mixed_strings(&["@", "/", "a", "z", "0", "-", "*", ".", "_", "~", "B", " ", "é"], 20000, 8),
    );
    assert!(accepted > 0);
}

#[test]
fn versions_match() {
    for v in ["0.0.0", "1.0.0", "10.20.30", "1.0.0-alpha", "1.0.0-0.3.7", "1.0.0-x.7.z.92", "1.0.0-alpha+001", "1.0.0+20130313144700", "1.0.0-beta+exp.sha.5114f85", "1.0.0--", "1.0.0-0a", "1.0.0+-"] {
        assert!(matches_version(v), "{v}");
    }
    for v in ["", "1", "1.0", "1.0.0.0", "01.0.0", "1.00.0", "1.0.0-", "1.0.0-01", "1.0.0-a..b", "1.0.0+", "1.0.0+a+b", "1.0.0-a.", "v1.0.0", "1.0.0 ", "xxx", "hello", "1.0.0-é"] {
        assert!(!matches_version(v), "{v}");
    }
}

#[test]
fn versions_agree_with_the_pattern() {
    let mut accepted = 0;
    accepted += agrees(VERSION, matches_version, &all_strings("1.0.", &['0', '1', '.', '-', '+', 'a'], 6));
    accepted += agrees(VERSION, matches_version, &all_strings("", &['0', '7', '.', '-', '+'], 7));
    accepted += agrees(
        VERSION,
        matches_version,
        &mixed_strings(&["0", "1", "12", ".", ".", "-", "+", "a", "Z", "0a", "_"], 20000, 10),
    );
    assert!(accepted > 0);
}

#[test]
fn a_digit_is_one_of_the_ten() {
    assert!(!matches_version("١.٢.٣"));
    assert!(!matches_package_manager("npm@١.٢.٣"));
}

#[test]
fn package_managers_match() {
    for v in ["npm@9.0.0", "npm@1.0.0", "pnpm@1.0.0", "yarn@1.0.0", "bun@1.0.0", "yarn@3.2.1-rc.1", "npm@007.0.0", "pnpm@8.6.0-+x y"] {
        assert!(matches_package_manager(v), "{v}");
    }
    for v in ["npm@9", "cargo@1.0.0", "invalid", "", "npm", "npm@", "npm@1.0", "npm@1.0.0-", "npm@1.0.0+1", "xnpm@1.0.0", "npm@1.0.0 ", "npm@1.0.0-a\nb", "Npm@1.0.0", "npm@@1.0.0"] {
        assert!(!matches_package_manager(v), "{v}");
    }
}

#[test]
fn package_managers_agree_with_the_pattern() {
    let mut accepted = 0;
    let mut inputs = Vec::new();
    for tool in ["npm@", "pnpm@", "yarn@", "bun@", "bum@", "npm", "@"] {
        inputs.extend(all_strings(tool, &['1', '0', '.', '-', 'a', '\n'], 6));
    }
    accepted += agrees(PACKAGE_MANAGER, matches_package_manager, &inputs);
    accepted += agrees(
        PACKAGE_MANAGER,
        matches_package_manager,
        &mixed_strings(&["npm", "pnpm", "yarn", "bun", "@", "1", "23", ".", "-", "x", "\n", " "], 20000, 9),
    );
    assert!(accepted > 0);
}

#[test]
fn words_are_taken_whole() {
    assert!(matches_module_type("commonjs"));
    assert!(matches_module_type("module"));
    assert!(!matches_module_type("invalid"));
    assert!(!matches_module_type("modules"));
    assert!(!matches_module_type(""));
    assert!(matches_access("public"));
    assert!(matches_access("restricted"));
    assert!(matches_access("private"));
    assert!(!matches_access("invalid"));
    assert!(!matches_access("Public"));
}

#[test]
fn licenses_are_those_of_the_list() {
    let list = [
        "AGPL-3.0-only", "Apache-2.0", "BSD-2-Clause", "BSD-3-Clause", "BSL-1.0", "CC0-1.0",
        "CDDL-1.0", "CDDL-1.1", "EPL-1.0", "EPL-2.0", "GPL-2.0-only", "GPL-3.0-only", "ISC",
        "LGPL-2.0-only", "LGPL-2.1-only", "LGPL-2.1-or-later", "LGPL-3.0-only",
        "LGPL-3.0-or-later", "MIT", "MPL-2.0", "MSPL", "UnLicense",
    ];
    for id in list {
        assert!(matches_license(id), "{id}");
        assert!(!matches_license(&id.to_lowercase()) || id.to_lowercase() == id);
        assert!(!matches_license(&format!("{id}1")));
        assert!(!matches_license(&format!(" {id}")));
    }
    assert!(!matches_license("MIT1"));
    assert!(!matches_license(""));
    assert!(!matches_license("AGPL-3x0-only"));
    assert!(!matches_license("GPL-3.0"));
}

#[test]
fn tags_agree_with_the_pattern() {
    assert!(matches_tag("latest"));
    assert!(matches_tag("alpha"));
    assert!(matches_tag("v1.0_rc-2"));
    assert!(!matches_tag(""));
    assert!(!matches_tag("a b"));
    assert!(agrees(TAG, matches_tag, &all_strings("", &['a', 'Z', '0', '-', '_', '.', '/', ' '], 4)) > 0);
}

#[test]
fn emails_match() {
    for v in ["test@example.com", "a.b+c%d_e-f@sub.example-1.org", "a@b.cd"] {
        assert!(matches_email(v), "{v}");
    }
    for v in ["", "xxx", "invalid", "@example.com", "a@.com", "a@b.c", "a@b", "a@b.c0m", "a@@b.com", "a b@c.de", "a@b.com "] {
        assert!(!matches_email(v), "{v}");
    }
}

#[test]
fn emails_agree_with_the_pattern() {
    let mut accepted = 0;
    accepted += agrees(EMAIL, matches_email, &all_strings("", &['a', 'Z', '1', '@', '.', '-', '+'], 6));
    accepted += agrees(
        EMAIL,
        matches_email,
        &mixed_strings(&["a", "b", "Q", "7", "@", ".", ".", "-", "_", "%", "+", "com", " ", "é"], 20000, 9),
    );
    assert!(accepted > 0);
}

#[test]
fn urls_match() {
    for v in [
        "https://example.com",
        "http://example.com",
        "https://test.com",
        "https://www.example.com",
        "https://registry.npmjs.org",
        "https://registry.npmjs.org/",
        "https://github.com/npm/cli.git",
        "https://github.com/rust-lang/rust",
        "https://example.com/path?x=1&y=2#frag",
        "http://a.b",
        "https://www.www.com",
        "https://a.b(c",
    ] {
        assert!(matches_url(v), "{v}");
    }
    for v in [
        "",
        "invalid",
        "222https://example.com",
        "ftp://example.com",
        "https://",
        "https://example",
        "https://.com",
        "https://example.com/a b",
        "https:/example.com",
        "HTTPS://example.com",
        "https://example.c_m",
        "https://a.(",
    ] {
        assert!(!matches_url(v), "{v}");
    }
}

#[test]
fn urls_agree_with_the_pattern() {
    let mut accepted = 0;
    let mut inputs = Vec::new();
    for scheme in ["http://", "https://", "https://www.", "http:/", "ttps://"] {
        inputs.extend(all_strings(scheme, &['a', '.', '(', '/', '_', '1'], 6));
    }
    accepted += agrees(URL, matches_url, &inputs);
    accepted += agrees(
        URL,
        matches_url,
        &mixed_strings(
            &["http://", "https://", "www.", "a", "bc", ".", ".", "/", "(", ")", "_", "-", "?", "q=1", "com", "abcdefg", " ", "é"],
            30000,
            8,
        ),
    );
    assert!(accepted > 0);
}

#[test]
fn a_host_takes_at_most_256_characters() {
    let host = "a".repeat(256);
    let url = format!("https://{host}.com");
    assert!(matches_url(&url));
    assert!(Regex::new(URL).unwrap().is_match(&url));
    let host = "a".repeat(257);
    let url = format!("https://{host}.com");
    assert!(!matches_url(&url));
    assert!(!Regex::new(URL).unwrap().is_match(&url));
    let url = format!("https://{}.b.com", "a".repeat(255));
    assert!(matches_url(&url));
    assert!(Regex::new(URL).unwrap().is_match(&url));
}
