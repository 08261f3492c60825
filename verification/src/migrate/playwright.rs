use vstd::prelude::*;
use crate::migrate::rules::{apply_rules, rules_view, apply_rule_table};

verus! {

/// The rewrites that turn a Playwright test file into a TurboSheet one,
/// in the order they are applied.
pub open spec fn playwright_file_rules() -> Seq<(Seq<char>, Seq<char>)> {
    seq![
        ("import { test, expect } from '@playwright/test';"@, "import { test, expect } from 'tsheet';"@),
        ("import { chromium, firefox, webkit } from 'playwright';"@, "// Cross-browser support built-in"@),
        ("from 'playwright'"@, "from 'tsheet'"@),
        ("page.waitForSelector"@, "// Auto-waits in TurboSheet: page.locator"@),
        ("page.$eval"@, "page.evaluate"@),
        ("page.$$eval("@, "page.evaluate(/* $$eval returns array - use querySelectorAll inside evaluate */"@),
    ]
}

/// The rewrites that turn a Playwright configuration into a TurboSheet
/// one, in the order they are applied: server settings are commented out
/// line by line.
pub open spec fn playwright_config_rules() -> Seq<(Seq<char>, Seq<char>)> {
    seq![
        ("playwright.config.ts"@, "tsheet.config.ts"@),
        ("import { defineConfig } from '@playwright/test'"@, "import { defineConfig } from 'tsheet'"@),
        ("webServer:"@, "// Use globalSetup in tsheet.config.ts instead of webServer"@),
        ("  command:"@, "//  command:"@),
        ("  port:"@, "//  port:"@),
        ("  timeout:"@, "//  timeout:"@),
        ("  reuseExistingServer:"@, "//  reuseExistingServer:"@),
        ("use: {"@, "projects: [{"@),
        ("browserName:"@, "browser:"@),
        ("} as Project,"@, "}],"@),
    ]
}

/// A Playwright test file rewritten for TurboSheet.
pub fn migrate_playwright_file(content: String) -> (r: String)
    ensures
        r@ == apply_rules(content@, playwright_file_rules()),
{
    let table: Vec<(&str, &str)> = vec![
        ("import { test, expect } from '@playwright/test';", "import { test, expect } from 'tsheet';"),
        ("import { chromium, firefox, webkit } from 'playwright';", "// Cross-browser support built-in"),
        ("from 'playwright'", "from 'tsheet'"),
        ("page.waitForSelector", "// Auto-waits in TurboSheet: page.locator"),
        ("page.$eval", "page.evaluate"),
        ("page.$$eval(", "page.evaluate(/* $$eval returns array - use querySelectorAll inside evaluate */"),
    ];
    assert(rules_view(table@) =~= playwright_file_rules());
    apply_rule_table(content.as_str(), &table)
}

/// A Playwright configuration rewritten for TurboSheet.
pub fn migrate_playwright_config(content: String) -> (r: String)
    ensures
        r@ == apply_rules(content@, playwright_config_rules()),
{
    let table: Vec<(&str, &str)> = vec![
        ("playwright.config.ts", "tsheet.config.ts"),
        ("import { defineConfig } from '@playwright/test'", "import { defineConfig } from 'tsheet'"),
        ("webServer:", "// Use globalSetup in tsheet.config.ts instead of webServer"),
        ("  command:", "//  command:"),
        ("  port:", "//  port:"),
        ("  timeout:", "//  timeout:"),
        ("  reuseExistingServer:", "//  reuseExistingServer:"),
        ("use: {", "projects: [{"),
        ("browserName:", "browser:"),
        ("} as Project,", "}],"),
    ];
    assert(rules_view(table@) =~= playwright_config_rules());
    apply_rule_table(content.as_str(), &table)
}

} // verus!
