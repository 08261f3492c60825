use vstd::prelude::*;
use crate::migrate::rules::{
    apply_rules, rules_view, apply_rule_table, lemma_replace_no_match, lemma_replace_whole, lemma_absent_by_length,
    lemma_absent_by_first_char, lemma_rule_step,
};
use crate::text::contains_spec;

verus! {

/// The rewrites that turn a Cypress test file into a TurboSheet one, in the
/// order they are applied.
pub open spec fn cypress_file_rules() -> Seq<(Seq<char>, Seq<char>)> {
    seq![
        ("import cy from 'cypress';"@, "import { test, expect, page } from 'tsheet';"@),
        ("from 'cypress'"@, "from 'tsheet'"@),
        ("cy.visit("@, "await page.goto("@),
        ("cy.get('"@, "await page.locator('"@),
        ("cy.get(\""@, "await page.locator(\""@),
        ("cy.get(`"@, "await page.locator(`"@),
        ("cy.get("@, "await page.locator("@),
        ("cy.contains('"@, "await page.getByText('"@),
        ("cy.contains(\""@, "await page.getByText(\""@),
        ("cy.contains(`"@, "await page.getByText(`"@),
        ("cy.contains("@, "await page.getByText("@),
        ("cy.click()"@, ".click()"@),
        ("cy.dblclick()"@, ".dblclick()"@),
        ("cy.rightclick()"@, ".click({ button: 'right' })"@),
        ("cy.type("@, ".fill("@),
        (".type("@, ".fill("@),
        ("cy.clear()"@, ".fill('')"@),
        (".clear()"@, ".fill('')"@),
        ("cy.should('be.visible')"@, "expect(locator).toBeVisible()"@),
        (".should('be.visible')"@, "expect(locator).toBeVisible()"@),
        ("cy.should('not.be.visible')"@, "expect(locator).not.toBeVisible()"@),
        ("cy.should('have.text',"@, "expect(locator).toHaveText("@),
        ("cy.should('have.value',"@, "expect(locator).toHaveValue("@),
        ("cy.should('have.class',"@, "expect(locator).toHaveClass("@),
        ("cy.should('be.enabled')"@, "expect(locator).toBeEnabled()"@),
        ("cy.should('be.disabled')"@, "expect(locator).toBeDisabled()"@),
        ("cy.should('exist')"@, "// TurboSheet auto-waits for element existence"@),
        ("cy.intercept('GET',"@, "await page.route('**"@),
        ("cy.intercept('POST',"@, "await page.route('**"@),
        ("cy.intercept('PUT',"@, "await page.route('**"@),
        ("cy.intercept('DELETE',"@, "await page.route('**"@),
        ("(req, res) => {"@, "async (route) => {\n  // TODO: Replace body with route.fulfill() or route.continue()"@),
        ("before(() =>"@, "test.beforeAll(async () =>"@),
        ("after(() =>"@, "test.afterAll(async () =>"@),
        ("beforeEach(() =>"@, "test.beforeEach(async () =>"@),
        ("afterEach(() =>"@, "test.afterEach(async () =>"@),
        ("describe('"@, "test.describe('"@),
        ("it('"@, "test('"@),
        ("it.only('"@, "test.only('"@),
        ("it.skip('"@, "test.skip('"@),
        ("xit('"@, "test.skip('"@),
        ("describe.only('"@, "test.describe.only('"@),
        ("describe.skip('"@, "test.describe.skip('"@),
    ]
}

/// The rewrites that turn a Cypress configuration into a TurboSheet one,
/// in the order they are applied.
pub open spec fn cypress_config_rules() -> Seq<(Seq<char>, Seq<char>)> {
    seq![
        ("cypress.config.ts"@, "tsheet.config.ts"@),
        ("import { defineConfig } from 'cypress'"@, "import { defineConfig } from 'tsheet'"@),
        ("e2e:"@, "// Projects for cross-browser testing:"@),
        ("specPattern:"@, "// testMatch:"@),
        ("video:"@, "// video:"@),
        ("screenshotOnRunFailure:"@, "// screenshotOnRunFailure:"@),
        ("viewportWidth:"@, "viewport:"@),
        ("viewportHeight:"@, "viewport:"@),
    ]
}

/// A Cypress test file rewritten for TurboSheet.
pub fn migrate_cypress_file(content: String) -> (r: String)
    ensures
        r@ == apply_rules(content@, cypress_file_rules()),
{
    let table: Vec<(&str, &str)> = vec![
        ("import cy from 'cypress';", "import { test, expect, page } from 'tsheet';"),
        ("from 'cypress'", "from 'tsheet'"),
        ("cy.visit(", "await page.goto("),
        ("cy.get('", "await page.locator('"),
        ("cy.get(\"", "await page.locator(\""),
        ("cy.get(`", "await page.locator(`"),
        ("cy.get(", "await page.locator("),
        ("cy.contains('", "await page.getByText('"),
        ("cy.contains(\"", "await page.getByText(\""),
        ("cy.contains(`", "await page.getByText(`"),
        ("cy.contains(", "await page.getByText("),
        ("cy.click()", ".click()"),
        ("cy.dblclick()", ".dblclick()"),
        ("cy.rightclick()", ".click({ button: 'right' })"),
        ("cy.type(", ".fill("),
        (".type(", ".fill("),
        ("cy.clear()", ".fill('')"),
        (".clear()", ".fill('')"),
        ("cy.should('be.visible')", "expect(locator).toBeVisible()"),
        (".should('be.visible')", "expect(locator).toBeVisible()"),
        ("cy.should('not.be.visible')", "expect(locator).not.toBeVisible()"),
        ("cy.should('have.text',", "expect(locator).toHaveText("),
        ("cy.should('have.value',", "expect(locator).toHaveValue("),
        ("cy.should('have.class',", "expect(locator).toHaveClass("),
        ("cy.should('be.enabled')", "expect(locator).toBeEnabled()"),
        ("cy.should('be.disabled')", "expect(locator).toBeDisabled()"),
        ("cy.should('exist')", "// TurboSheet auto-waits for element existence"),
        ("cy.intercept('GET',", "await page.route('**"),
        ("cy.intercept('POST',", "await page.route('**"),
        ("cy.intercept('PUT',", "await page.route('**"),
        ("cy.intercept('DELETE',", "await page.route('**"),
        ("(req, res) => {", "async (route) => {\n  // TODO: Replace body with route.fulfill() or route.continue()"),
        ("before(() =>", "test.beforeAll(async () =>"),
        ("after(() =>", "test.afterAll(async () =>"),
        ("beforeEach(() =>", "test.beforeEach(async () =>"),
        ("afterEach(() =>", "test.afterEach(async () =>"),
        ("describe('", "test.describe('"),
        ("it('", "test('"),
        ("it.only('", "test.only('"),
        ("it.skip('", "test.skip('"),
        ("xit('", "test.skip('"),
        ("describe.only('", "test.describe.only('"),
        ("describe.skip('", "test.describe.skip('"),
    ];
    assert(rules_view(table@) =~= cypress_file_rules());
    apply_rule_table(content.as_str(), &table)
}

/// A Cypress configuration rewritten for TurboSheet.
pub fn migrate_cypress_config(content: String) -> (r: String)
    ensures
        r@ == apply_rules(content@, cypress_config_rules()),
{
    let table: Vec<(&str, &str)> = vec![
        ("cypress.config.ts", "tsheet.config.ts"),
        ("import { defineConfig } from 'cypress'", "import { defineConfig } from 'tsheet'"),
        ("e2e:", "// Projects for cross-browser testing:"),
        ("specPattern:", "// testMatch:"),
        ("video:", "// video:"),
        ("screenshotOnRunFailure:", "// screenshotOnRunFailure:"),
        ("viewportWidth:", "viewport:"),
        ("viewportHeight:", "viewport:"),
    ];
    assert(rules_view(table@) =~= cypress_config_rules());
    apply_rule_table(content.as_str(), &table)
}

/// `before(() =>` alone is rewritten to `test.beforeAll(async () =>`.
proof fn lemma_hook_before()
    ensures
        apply_rules("before(() =>"@, cypress_file_rules()) == "test.beforeAll(async () =>"@,
{
    reveal_strlit("(req, res) => {");
    reveal_strlit(".clear()");
    reveal_strlit(".should('be.visible')");
    reveal_strlit(".type(");
    reveal_strlit("after(() =>");
    reveal_strlit("afterEach(() =>");
    reveal_strlit("before(() =>");
    reveal_strlit("beforeEach(() =>");
    reveal_strlit("cy.clear()");
    reveal_strlit("cy.click()");
    reveal_strlit("cy.contains(");
    reveal_strlit("cy.contains('");
    reveal_strlit("cy.contains(\"");
    reveal_strlit("cy.contains(`");
    reveal_strlit("cy.dblclick()");
    reveal_strlit("cy.get(");
    reveal_strlit("cy.get('");
    reveal_strlit("cy.get(\"");
    reveal_strlit("cy.get(`");
    reveal_strlit("cy.intercept('DELETE',");
    reveal_strlit("cy.intercept('GET',");
    reveal_strlit("cy.intercept('POST',");
    reveal_strlit("cy.intercept('PUT',");
    reveal_strlit("cy.rightclick()");
    reveal_strlit("cy.should('be.disabled')");
    reveal_strlit("cy.should('be.enabled')");
    reveal_strlit("cy.should('be.visible')");
    reveal_strlit("cy.should('exist')");
    reveal_strlit("cy.should('have.class',");
    reveal_strlit("cy.should('have.text',");
    reveal_strlit("cy.should('have.value',");
    reveal_strlit("cy.should('not.be.visible')");
    reveal_strlit("cy.type(");
    reveal_strlit("cy.visit(");
    reveal_strlit("describe('");
    reveal_strlit("describe.only('");
    reveal_strlit("describe.skip('");
    reveal_strlit("from 'cypress'");
    reveal_strlit("import cy from 'cypress';");
    reveal_strlit("it('");
    reveal_strlit("it.only('");
    reveal_strlit("it.skip('");
    reveal_strlit("test.beforeAll(async () =>");
    reveal_strlit("xit('");
    let rs = cypress_file_rules();
    let s = "before(() =>"@;
    assert(rs.take(0) =~= Seq::<(Seq<char>, Seq<char>)>::empty());
    assert(rs[0] == ("import cy from 'cypress';"@, "import { test, expect, page } from 'tsheet';"@));
    lemma_absent_by_length("before(() =>"@, "import cy from 'cypress';"@);
    lemma_replace_no_match("before(() =>"@, "import cy from 'cypress';"@, "import { test, expect, page } from 'tsheet';"@);
    lemma_rule_step(s, rs, 0, "before(() =>"@, "before(() =>"@);
    assert(rs[1] == ("from 'cypress'"@, "from 'tsheet'"@));
    lemma_absent_by_length("before(() =>"@, "from 'cypress'"@);
    lemma_replace_no_match("before(() =>"@, "from 'cypress'"@, "from 'tsheet'"@);
    lemma_rule_step(s, rs, 1, "before(() =>"@, "before(() =>"@);
    assert(rs[2] == ("cy.visit("@, "await page.goto("@));
    lemma_absent_by_first_char("before(() =>"@, "cy.visit("@);
    lemma_replace_no_match("before(() =>"@, "cy.visit("@, "await page.goto("@);
    lemma_rule_step(s, rs, 2, "before(() =>"@, "before(() =>"@);
    assert(rs[3] == ("cy.get('"@, "await page.locator('"@));
    lemma_absent_by_first_char("before(() =>"@, "cy.get('"@);
    lemma_replace_no_match("before(() =>"@, "cy.get('"@, "await page.locator('"@);
    lemma_rule_step(s, rs, 3, "before(() =>"@, "before(() =>"@);
    assert(rs[4] == ("cy.get(\""@, "await page.locator(\""@));
    lemma_absent_by_first_char("before(() =>"@, "cy.get(\""@);
    lemma_replace_no_match("before(() =>"@, "cy.get(\""@, "await page.locator(\""@);
    lemma_rule_step(s, rs, 4, "before(() =>"@, "before(() =>"@);
    assert(rs[5] == ("cy.get(`"@, "await page.locator(`"@));
    lemma_absent_by_first_char("before(() =>"@, "cy.get(`"@);
    lemma_replace_no_match("before(() =>"@, "cy.get(`"@, "await page.locator(`"@);
    lemma_rule_step(s, rs, 5, "before(() =>"@, "before(() =>"@);
    assert(rs[6] == ("cy.get("@, "await page.locator("@));
    lemma_absent_by_first_char("before(() =>"@, "cy.get("@);
    lemma_replace_no_match("before(() =>"@, "cy.get("@, "await page.locator("@);
    lemma_rule_step(s, rs, 6, "before(() =>"@, "before(() =>"@);
    assert(rs[7] == ("cy.contains('"@, "await page.getByText('"@));
    lemma_absent_by_length("before(() =>"@, "cy.contains('"@);
    lemma_replace_no_match("before(() =>"@, "cy.contains('"@, "await page.getByText('"@);
    lemma_rule_step(s, rs, 7, "before(() =>"@, "before(() =>"@);
    assert(rs[8] == ("cy.contains(\""@, "await page.getByText(\""@));
    lemma_absent_by_length("before(() =>"@, "cy.contains(\""@);
    lemma_replace_no_match("before(() =>"@, "cy.contains(\""@, "await page.getByText(\""@);
    lemma_rule_step(s, rs, 8, "before(() =>"@, "before(() =>"@);
    assert(rs[9] == ("cy.contains(`"@, "await page.getByText(`"@));
    lemma_absent_by_length("before(() =>"@, "cy.contains(`"@);
    lemma_replace_no_match("before(() =>"@, "cy.contains(`"@, "await page.getByText(`"@);
    lemma_rule_step(s, rs, 9, "before(() =>"@, "before(() =>"@);
    assert(rs[10] == ("cy.contains("@, "await page.getByText("@));
    lemma_absent_by_first_char("before(() =>"@, "cy.contains("@);
    lemma_replace_no_match("before(() =>"@, "cy.contains("@, "await page.getByText("@);
    lemma_rule_step(s, rs, 10, "before(() =>"@, "before(() =>"@);
    assert(rs[11] == ("cy.click()"@, ".click()"@));
    lemma_absent_by_first_char("before(() =>"@, "cy.click()"@);
    lemma_replace_no_match("before(() =>"@, "cy.click()"@, ".click()"@);
    lemma_rule_step(s, rs, 11, "before(() =>"@, "before(() =>"@);
    assert(rs[12] == ("cy.dblclick()"@, ".dblclick()"@));
    lemma_absent_by_length("before(() =>"@, "cy.dblclick()"@);
    lemma_replace_no_match("before(() =>"@, "cy.dblclick()"@, ".dblclick()"@);
    lemma_rule_step(s, rs, 12, "before(() =>"@, "before(() =>"@);
    assert(rs[13] == ("cy.rightclick()"@, ".click({ button: 'right' })"@));
    lemma_absent_by_length("before(() =>"@, "cy.rightclick()"@);
    lemma_replace_no_match("before(() =>"@, "cy.rightclick()"@, ".click({ button: 'right' })"@);
    lemma_rule_step(s, rs, 13, "before(() =>"@, "before(() =>"@);
    assert(rs[14] == ("cy.type("@, ".fill("@));
    lemma_absent_by_first_char("before(() =>"@, "cy.type("@);
    lemma_replace_no_match("before(() =>"@, "cy.type("@, ".fill("@);
    lemma_rule_step(s, rs, 14, "before(() =>"@, "before(() =>"@);
    assert(rs[15] == (".type("@, ".fill("@));
    lemma_absent_by_first_char("before(() =>"@, ".type("@);
    lemma_replace_no_match("before(() =>"@, ".type("@, ".fill("@);
    lemma_rule_step(s, rs, 15, "before(() =>"@, "before(() =>"@);
    assert(rs[16] == ("cy.clear()"@, ".fill('')"@));
    lemma_absent_by_first_char("before(() =>"@, "cy.clear()"@);
    lemma_replace_no_match("before(() =>"@, "cy.clear()"@, ".fill('')"@);
    lemma_rule_step(s, rs, 16, "before(() =>"@, "before(() =>"@);
    assert(rs[17] == (".clear()"@, ".fill('')"@));
    lemma_absent_by_first_char("before(() =>"@, ".clear()"@);
    lemma_replace_no_match("before(() =>"@, ".clear()"@, ".fill('')"@);
    lemma_rule_step(s, rs, 17, "before(() =>"@, "before(() =>"@);
    assert(rs[18] == ("cy.should('be.visible')"@, "expect(locator).toBeVisible()"@));
    lemma_absent_by_length("before(() =>"@, "cy.should('be.visible')"@);
    lemma_replace_no_match("before(() =>"@, "cy.should('be.visible')"@, "expect(locator).toBeVisible()"@);
    lemma_rule_step(s, rs, 18, "before(() =>"@, "before(() =>"@);
    assert(rs[19] == (".should('be.visible')"@, "expect(locator).toBeVisible()"@));
    lemma_absent_by_length("before(() =>"@, ".should('be.visible')"@);
    lemma_replace_no_match("before(() =>"@, ".should('be.visible')"@, "expect(locator).toBeVisible()"@);
    lemma_rule_step(s, rs, 19, "before(() =>"@, "before(() =>"@);
    assert(rs[20] == ("cy.should('not.be.visible')"@, "expect(locator).not.toBeVisible()"@));
    lemma_absent_by_length("before(() =>"@, "cy.should('not.be.visible')"@);
    lemma_replace_no_match("before(() =>"@, "cy.should('not.be.visible')"@, "expect(locator).not.toBeVisible()"@);
    lemma_rule_step(s, rs, 20, "before(() =>"@, "before(() =>"@);
    assert(rs[21] == ("cy.should('have.text',"@, "expect(locator).toHaveText("@));
    lemma_absent_by_length("before(() =>"@, "cy.should('have.text',"@);
    lemma_replace_no_match("before(() =>"@, "cy.should('have.text',"@, "expect(locator).toHaveText("@);
    lemma_rule_step(s, rs, 21, "before(() =>"@, "before(() =>"@);
    assert(rs[22] == ("cy.should('have.value',"@, "expect(locator).toHaveValue("@));
    lemma_absent_by_length("before(() =>"@, "cy.should('have.value',"@);
    lemma_replace_no_match("before(() =>"@, "cy.should('have.value',"@, "expect(locator).toHaveValue("@);
    lemma_rule_step(s, rs, 22, "before(() =>"@, "before(() =>"@);
    assert(rs[23] == ("cy.should('have.class',"@, "expect(locator).toHaveClass("@));
    lemma_absent_by_length("before(() =>"@, "cy.should('have.class',"@);
    lemma_replace_no_match("before(() =>"@, "cy.should('have.class',"@, "expect(locator).toHaveClass("@);
    lemma_rule_step(s, rs, 23, "before(() =>"@, "before(() =>"@);
    assert(rs[24] == ("cy.should('be.enabled')"@, "expect(locator).toBeEnabled()"@));
    lemma_absent_by_length("before(() =>"@, "cy.should('be.enabled')"@);
    lemma_replace_no_match("before(() =>"@, "cy.should('be.enabled')"@, "expect(locator).toBeEnabled()"@);
    lemma_rule_step(s, rs, 24, "before(() =>"@, "before(() =>"@);
    assert(rs[25] == ("cy.should('be.disabled')"@, "expect(locator).toBeDisabled()"@));
    lemma_absent_by_length("before(() =>"@, "cy.should('be.disabled')"@);
    lemma_replace_no_match("before(() =>"@, "cy.should('be.disabled')"@, "expect(locator).toBeDisabled()"@);
    lemma_rule_step(s, rs, 25, "before(() =>"@, "before(() =>"@);
    assert(rs[26] == ("cy.should('exist')"@, "// TurboSheet auto-waits for element existence"@));
    lemma_absent_by_length("before(() =>"@, "cy.should('exist')"@);
    lemma_replace_no_match("before(() =>"@, "cy.should('exist')"@, "// TurboSheet auto-waits for element existence"@);
    lemma_rule_step(s, rs, 26, "before(() =>"@, "before(() =>"@);
    assert(rs[27] == ("cy.intercept('GET',"@, "await page.route('**"@));
    lemma_absent_by_length("before(() =>"@, "cy.intercept('GET',"@);
    lemma_replace_no_match("before(() =>"@, "cy.intercept('GET',"@, "await page.route('**"@);
    lemma_rule_step(s, rs, 27, "before(() =>"@, "before(() =>"@);
    assert(rs[28] == ("cy.intercept('POST',"@, "await page.route('**"@));
    lemma_absent_by_length("before(() =>"@, "cy.intercept('POST',"@);
    lemma_replace_no_match("before(() =>"@, "cy.intercept('POST',"@, "await page.route('**"@);
    lemma_rule_step(s, rs, 28, "before(() =>"@, "before(() =>"@);
    assert(rs[29] == ("cy.intercept('PUT',"@, "await page.route('**"@));
    lemma_absent_by_length("before(() =>"@, "cy.intercept('PUT',"@);
    lemma_replace_no_match("before(() =>"@, "cy.intercept('PUT',"@, "await page.route('**"@);
    lemma_rule_step(s, rs, 29, "before(() =>"@, "before(() =>"@);
    assert(rs[30] == ("cy.intercept('DELETE',"@, "await page.route('**"@));
    lemma_absent_by_length("before(() =>"@, "cy.intercept('DELETE',"@);
    lemma_replace_no_match("before(() =>"@, "cy.intercept('DELETE',"@, "await page.route('**"@);
    lemma_rule_step(s, rs, 30, "before(() =>"@, "before(() =>"@);
    assert(rs[31] == ("(req, res) => {"@, "async (route) => {\n  // TODO: Replace body with route.fulfill() or route.continue()"@));
    lemma_absent_by_length("before(() =>"@, "(req, res) => {"@);
    lemma_replace_no_match("before(() =>"@, "(req, res) => {"@, "async (route) => {\n  // TODO: Replace body with route.fulfill() or route.continue()"@);
    lemma_rule_step(s, rs, 31, "before(() =>"@, "before(() =>"@);
    assert(rs[32] == ("before(() =>"@, "test.beforeAll(async () =>"@));
    lemma_replace_whole("before(() =>"@, "test.beforeAll(async () =>"@);
    lemma_rule_step(s, rs, 32, "before(() =>"@, "test.beforeAll(async () =>"@);
    assert(rs[33] == ("after(() =>"@, "test.afterAll(async () =>"@));
    assert(!contains_spec("test.beforeAll(async () =>"@, "after(() =>"@)) by {
        assert forall|i: int| 0 <= i && i + 11 <= 26 implies #[trigger] "test.beforeAll(async () =>"@.subrange(i, i + 11) != "after(() =>"@ by {
            if i == 15 {
                assert("test.beforeAll(async () =>"@.subrange(i, i + 11)[1] != "after(() =>"@[1]);
            } else {
                assert("test.beforeAll(async () =>"@.subrange(i, i + 11)[0] != "after(() =>"@[0]);
            }
        }
    }
    lemma_replace_no_match("test.beforeAll(async () =>"@, "after(() =>"@, "test.afterAll(async () =>"@);
    lemma_rule_step(s, rs, 33, "test.beforeAll(async () =>"@, "test.beforeAll(async () =>"@);
    assert(rs[34] == ("beforeEach(() =>"@, "test.beforeEach(async () =>"@));
    assert(!contains_spec("test.beforeAll(async () =>"@, "beforeEach(() =>"@)) by {
        assert forall|i: int| 0 <= i && i + 16 <= 26 implies #[trigger] "test.beforeAll(async () =>"@.subrange(i, i + 16) != "beforeEach(() =>"@ by {
            if i == 5 {
                assert("test.beforeAll(async () =>"@.subrange(i, i + 16)[6] != "beforeEach(() =>"@[6]);
            } else {
                assert("test.beforeAll(async () =>"@.subrange(i, i + 16)[0] != "beforeEach(() =>"@[0]);
            }
        }
    }
    lemma_replace_no_match("test.beforeAll(async () =>"@, "beforeEach(() =>"@, "test.beforeEach(async () =>"@);
    lemma_rule_step(s, rs, 34, "test.beforeAll(async () =>"@, "test.beforeAll(async () =>"@);
    assert(rs[35] == ("afterEach(() =>"@, "test.afterEach(async () =>"@));
    assert(!contains_spec("test.beforeAll(async () =>"@, "afterEach(() =>"@)) by {
        assert forall|i: int| 0 <= i && i + 15 <= 26 implies #[trigger] "test.beforeAll(async () =>"@.subrange(i, i + 15) != "afterEach(() =>"@ by {
            assert("test.beforeAll(async () =>"@.subrange(i, i + 15)[0] != "afterEach(() =>"@[0]);
        }
    }
    lemma_replace_no_match("test.beforeAll(async () =>"@, "afterEach(() =>"@, "test.afterEach(async () =>"@);
    lemma_rule_step(s, rs, 35, "test.beforeAll(async () =>"@, "test.beforeAll(async () =>"@);
    assert(rs[36] == ("describe('"@, "test.describe('"@));
    lemma_absent_by_first_char("test.beforeAll(async () =>"@, "describe('"@);
    lemma_replace_no_match("test.beforeAll(async () =>"@, "describe('"@, "test.describe('"@);
    lemma_rule_step(s, rs, 36, "test.beforeAll(async () =>"@, "test.beforeAll(async () =>"@);
    assert(rs[37] == ("it('"@, "test('"@));
    lemma_absent_by_first_char("test.beforeAll(async () =>"@, "it('"@);
    lemma_replace_no_match("test.beforeAll(async () =>"@, "it('"@, "test('"@);
    lemma_rule_step(s, rs, 37, "test.beforeAll(async () =>"@, "test.beforeAll(async () =>"@);
    assert(rs[38] == ("it.only('"@, "test.only('"@));
    lemma_absent_by_first_char("test.beforeAll(async () =>"@, "it.only('"@);
    lemma_replace_no_match("test.beforeAll(async () =>"@, "it.only('"@, "test.only('"@);
    lemma_rule_step(s, rs, 38, "test.beforeAll(async () =>"@, "test.beforeAll(async () =>"@);
    assert(rs[39] == ("it.skip('"@, "test.skip('"@));
    lemma_absent_by_first_char("test.beforeAll(async () =>"@, "it.skip('"@);
    lemma_replace_no_match("test.beforeAll(async () =>"@, "it.skip('"@, "test.skip('"@);
    lemma_rule_step(s, rs, 39, "test.beforeAll(async () =>"@, "test.beforeAll(async () =>"@);
    assert(rs[40] == ("xit('"@, "test.skip('"@));
    lemma_absent_by_first_char("test.beforeAll(async () =>"@, "xit('"@);
    lemma_replace_no_match("test.beforeAll(async () =>"@, "xit('"@, "test.skip('"@);
    lemma_rule_step(s, rs, 40, "test.beforeAll(async () =>"@, "test.beforeAll(async () =>"@);
    assert(rs[41] == ("describe.only('"@, "test.describe.only('"@));
    lemma_absent_by_first_char("test.beforeAll(async () =>"@, "describe.only('"@);
    lemma_replace_no_match("test.beforeAll(async () =>"@, "describe.only('"@, "test.describe.only('"@);
    lemma_rule_step(s, rs, 41, "test.beforeAll(async () =>"@, "test.beforeAll(async () =>"@);
    assert(rs[42] == ("describe.skip('"@, "test.describe.skip('"@));
    lemma_absent_by_first_char("test.beforeAll(async () =>"@, "describe.skip('"@);
    lemma_replace_no_match("test.beforeAll(async () =>"@, "describe.skip('"@, "test.describe.skip('"@);
    lemma_rule_step(s, rs, 42, "test.beforeAll(async () =>"@, "test.beforeAll(async () =>"@);
    assert(rs.take(43) =~= rs);
}

/// `after(() =>` alone is rewritten to `test.afterAll(async () =>`.
proof fn lemma_hook_after()
    ensures
        apply_rules("after(() =>"@, cypress_file_rules()) == "test.afterAll(async () =>"@,
{
    reveal_strlit("(req, res) => {");
    reveal_strlit(".clear()");
    reveal_strlit(".should('be.visible')");
    reveal_strlit(".type(");
    reveal_strlit("after(() =>");
    reveal_strlit("afterEach(() =>");
    reveal_strlit("before(() =>");
    reveal_strlit("beforeEach(() =>");
    reveal_strlit("cy.clear()");
    reveal_strlit("cy.click()");
    reveal_strlit("cy.contains(");
    reveal_strlit("cy.contains('");
    reveal_strlit("cy.contains(\"");
    reveal_strlit("cy.contains(`");
    reveal_strlit("cy.dblclick()");
    reveal_strlit("cy.get(");
    reveal_strlit("cy.get('");
    reveal_strlit("cy.get(\"");
    reveal_strlit("cy.get(`");
    reveal_strlit("cy.intercept('DELETE',");
    reveal_strlit("cy.intercept('GET',");
    reveal_strlit("cy.intercept('POST',");
    reveal_strlit("cy.intercept('PUT',");
    reveal_strlit("cy.rightclick()");
    reveal_strlit("cy.should('be.disabled')");
    reveal_strlit("cy.should('be.enabled')");
    reveal_strlit("cy.should('be.visible')");
    reveal_strlit("cy.should('exist')");
    reveal_strlit("cy.should('have.class',");
    reveal_strlit("cy.should('have.text',");
    reveal_strlit("cy.should('have.value',");
    reveal_strlit("cy.should('not.be.visible')");
    reveal_strlit("cy.type(");
    reveal_strlit("cy.visit(");
    reveal_strlit("describe('");
    reveal_strlit("describe.only('");
    reveal_strlit("describe.skip('");
    reveal_strlit("from 'cypress'");
    reveal_strlit("import cy from 'cypress';");
    reveal_strlit("it('");
    reveal_strlit("it.only('");
    reveal_strlit("it.skip('");
    reveal_strlit("test.afterAll(async () =>");
    reveal_strlit("xit('");
    let rs = cypress_file_rules();
    let s = "after(() =>"@;
    assert(rs.take(0) =~= Seq::<(Seq<char>, Seq<char>)>::empty());
    assert(rs[0] == ("import cy from 'cypress';"@, "import { test, expect, page } from 'tsheet';"@));
    lemma_absent_by_length("after(() =>"@, "import cy from 'cypress';"@);
    lemma_replace_no_match("after(() =>"@, "import cy from 'cypress';"@, "import { test, expect, page } from 'tsheet';"@);
    lemma_rule_step(s, rs, 0, "after(() =>"@, "after(() =>"@);
    assert(rs[1] == ("from 'cypress'"@, "from 'tsheet'"@));
    lemma_absent_by_length("after(() =>"@, "from 'cypress'"@);
    lemma_replace_no_match("after(() =>"@, "from 'cypress'"@, "from 'tsheet'"@);
    lemma_rule_step(s, rs, 1, "after(() =>"@, "after(() =>"@);
    assert(rs[2] == ("cy.visit("@, "await page.goto("@));
    lemma_absent_by_first_char("after(() =>"@, "cy.visit("@);
    lemma_replace_no_match("after(() =>"@, "cy.visit("@, "await page.goto("@);
    lemma_rule_step(s, rs, 2, "after(() =>"@, "after(() =>"@);
    assert(rs[3] == ("cy.get('"@, "await page.locator('"@));
    lemma_absent_by_first_char("after(() =>"@, "cy.get('"@);
    lemma_replace_no_match("after(() =>"@, "cy.get('"@, "await page.locator('"@);
    lemma_rule_step(s, rs, 3, "after(() =>"@, "after(() =>"@);
    assert(rs[4] == ("cy.get(\""@, "await page.locator(\""@));
    lemma_absent_by_first_char("after(() =>"@, "cy.get(\""@);
    lemma_replace_no_match("after(() =>"@, "cy.get(\""@, "await page.locator(\""@);
    lemma_rule_step(s, rs, 4, "after(() =>"@, "after(() =>"@);
    assert(rs[5] == ("cy.get(`"@, "await page.locator(`"@));
    lemma_absent_by_first_char("after(() =>"@, "cy.get(`"@);
    lemma_replace_no_match("after(() =>"@, "cy.get(`"@, "await page.locator(`"@);
    lemma_rule_step(s, rs, 5, "after(() =>"@, "after(() =>"@);
    assert(rs[6] == ("cy.get("@, "await page.locator("@));
    lemma_absent_by_first_char("after(() =>"@, "cy.get("@);
    lemma_replace_no_match("after(() =>"@, "cy.get("@, "await page.locator("@);
    lemma_rule_step(s, rs, 6, "after(() =>"@, "after(() =>"@);
    assert(rs[7] == ("cy.contains('"@, "await page.getByText('"@));
    lemma_absent_by_length("after(() =>"@, "cy.contains('"@);
    lemma_replace_no_match("after(() =>"@, "cy.contains('"@, "await page.getByText('"@);
    lemma_rule_step(s, rs, 7, "after(() =>"@, "after(() =>"@);
    assert(rs[8] == ("cy.contains(\""@, "await page.getByText(\""@));
    lemma_absent_by_length("after(() =>"@, "cy.contains(\""@);
    lemma_replace_no_match("after(() =>"@, "cy.contains(\""@, "await page.getByText(\""@);
    lemma_rule_step(s, rs, 8, "after(() =>"@, "after(() =>"@);
    assert(rs[9] == ("cy.contains(`"@, "await page.getByText(`"@));
    lemma_absent_by_length("after(() =>"@, "cy.contains(`"@);
    lemma_replace_no_match("after(() =>"@, "cy.contains(`"@, "await page.getByText(`"@);
    lemma_rule_step(s, rs, 9, "after(() =>"@, "after(() =>"@);
    assert(rs[10] == ("cy.contains("@, "await page.getByText("@));
    lemma_absent_by_length("after(() =>"@, "cy.contains("@);
    lemma_replace_no_match("after(() =>"@, "cy.contains("@, "await page.getByText("@);
    lemma_rule_step(s, rs, 10, "after(() =>"@, "after(() =>"@);
    assert(rs[11] == ("cy.click()"@, ".click()"@));
    lemma_absent_by_first_char("after(() =>"@, "cy.click()"@);
    lemma_replace_no_match("after(() =>"@, "cy.click()"@, ".click()"@);
    lemma_rule_step(s, rs, 11, "after(() =>"@, "after(() =>"@);
    assert(rs[12] == ("cy.dblclick()"@, ".dblclick()"@));
    lemma_absent_by_length("after(() =>"@, "cy.dblclick()"@);
    lemma_replace_no_match("after(() =>"@, "cy.dblclick()"@, ".dblclick()"@);
    lemma_rule_step(s, rs, 12, "after(() =>"@, "after(() =>"@);
    assert(rs[13] == ("cy.rightclick()"@, ".click({ button: 'right' })"@));
    lemma_absent_by_length("after(() =>"@, "cy.rightclick()"@);
    lemma_replace_no_match("after(() =>"@, "cy.rightclick()"@, ".click({ button: 'right' })"@);
    lemma_rule_step(s, rs, 13, "after(() =>"@, "after(() =>"@);
    assert(rs[14] == ("cy.type("@, ".fill("@));
    lemma_absent_by_first_char("after(() =>"@, "cy.type("@);
    lemma_replace_no_match("after(() =>"@, "cy.type("@, ".fill("@);
    lemma_rule_step(s, rs, 14, "after(() =>"@, "after(() =>"@);
    assert(rs[15] == (".type("@, ".fill("@));
    lemma_absent_by_first_char("after(() =>"@, ".type("@);
    lemma_replace_no_match("after(() =>"@, ".type("@, ".fill("@);
    lemma_rule_step(s, rs, 15, "after(() =>"@, "after(() =>"@);
    assert(rs[16] == ("cy.clear()"@, ".fill('')"@));
    lemma_absent_by_first_char("after(() =>"@, "cy.clear()"@);
    lemma_replace_no_match("after(() =>"@, "cy.clear()"@, ".fill('')"@);
    lemma_rule_step(s, rs, 16, "after(() =>"@, "after(() =>"@);
    assert(rs[17] == (".clear()"@, ".fill('')"@));
    lemma_absent_by_first_char("after(() =>"@, ".clear()"@);
    lemma_replace_no_match("after(() =>"@, ".clear()"@, ".fill('')"@);
    lemma_rule_step(s, rs, 17, "after(() =>"@, "after(() =>"@);
    assert(rs[18] == ("cy.should('be.visible')"@, "expect(locator).toBeVisible()"@));
    lemma_absent_by_length("after(() =>"@, "cy.should('be.visible')"@);
    lemma_replace_no_match("after(() =>"@, "cy.should('be.visible')"@, "expect(locator).toBeVisible()"@);
    lemma_rule_step(s, rs, 18, "after(() =>"@, "after(() =>"@);
    assert(rs[19] == (".should('be.visible')"@, "expect(locator).toBeVisible()"@));
    lemma_absent_by_length("after(() =>"@, ".should('be.visible')"@);
    lemma_replace_no_match("after(() =>"@, ".should('be.visible')"@, "expect(locator).toBeVisible()"@);
    lemma_rule_step(s, rs, 19, "after(() =>"@, "after(() =>"@);
    assert(rs[20] == ("cy.should('not.be.visible')"@, "expect(locator).not.toBeVisible()"@));
    lemma_absent_by_length("after(() =>"@, "cy.should('not.be.visible')"@);
    lemma_replace_no_match("after(() =>"@, "cy.should('not.be.visible')"@, "expect(locator).not.toBeVisible()"@);
    lemma_rule_step(s, rs, 20, "after(() =>"@, "after(() =>"@);
    assert(rs[21] == ("cy.should('have.text',"@, "expect(locator).toHaveText("@));
    lemma_absent_by_length("after(() =>"@, "cy.should('have.text',"@);
    lemma_replace_no_match("after(() =>"@, "cy.should('have.text',"@, "expect(locator).toHaveText("@);
    lemma_rule_step(s, rs, 21, "after(() =>"@, "after(() =>"@);
    assert(rs[22] == ("cy.should('have.value',"@, "expect(locator).toHaveValue("@));
    lemma_absent_by_length("after(() =>"@, "cy.should('have.value',"@);
    lemma_replace_no_match("after(() =>"@, "cy.should('have.value',"@, "expect(locator).toHaveValue("@);
    lemma_rule_step(s, rs, 22, "after(() =>"@, "after(() =>"@);
    assert(rs[23] == ("cy.should('have.class',"@, "expect(locator).toHaveClass("@));
    lemma_absent_by_length("after(() =>"@, "cy.should('have.class',"@);
    lemma_replace_no_match("after(() =>"@, "cy.should('have.class',"@, "expect(locator).toHaveClass("@);
    lemma_rule_step(s, rs, 23, "after(() =>"@, "after(() =>"@);
    assert(rs[24] == ("cy.should('be.enabled')"@, "expect(locator).toBeEnabled()"@));
    lemma_absent_by_length("after(() =>"@, "cy.should('be.enabled')"@);
    lemma_replace_no_match("after(() =>"@, "cy.should('be.enabled')"@, "expect(locator).toBeEnabled()"@);
    lemma_rule_step(s, rs, 24, "after(() =>"@, "after(() =>"@);
    assert(rs[25] == ("cy.should('be.disabled')"@, "expect(locator).toBeDisabled()"@));
    lemma_absent_by_length("after(() =>"@, "cy.should('be.disabled')"@);
    lemma_replace_no_match("after(() =>"@, "cy.should('be.disabled')"@, "expect(locator).toBeDisabled()"@);
    lemma_rule_step(s, rs, 25, "after(() =>"@, "after(() =>"@);
    assert(rs[26] == ("cy.should('exist')"@, "// TurboSheet auto-waits for element existence"@));
    lemma_absent_by_length("after(() =>"@, "cy.should('exist')"@);
    lemma_replace_no_match("after(() =>"@, "cy.should('exist')"@, "// TurboSheet auto-waits for element existence"@);
    lemma_rule_step(s, rs, 26, "after(() =>"@, "after(() =>"@);
    assert(rs[27] == ("cy.intercept('GET',"@, "await page.route('**"@));
    lemma_absent_by_length("after(() =>"@, "cy.intercept('GET',"@);
    lemma_replace_no_match("after(() =>"@, "cy.intercept('GET',"@, "await page.route('**"@);
    lemma_rule_step(s, rs, 27, "after(() =>"@, "after(() =>"@);
    assert(rs[28] == ("cy.intercept('POST',"@, "await page.route('**"@));
    lemma_absent_by_length("after(() =>"@, "cy.intercept('POST',"@);
    lemma_replace_no_match("after(() =>"@, "cy.intercept('POST',"@, "await page.route('**"@);
    lemma_rule_step(s, rs, 28, "after(() =>"@, "after(() =>"@);
    assert(rs[29] == ("cy.intercept('PUT',"@, "await page.route('**"@));
    lemma_absent_by_length("after(() =>"@, "cy.intercept('PUT',"@);
    lemma_replace_no_match("after(() =>"@, "cy.intercept('PUT',"@, "await page.route('**"@);
    lemma_rule_step(s, rs, 29, "after(() =>"@, "after(() =>"@);
    assert(rs[30] == ("cy.intercept('DELETE',"@, "await page.route('**"@));
    lemma_absent_by_length("after(() =>"@, "cy.intercept('DELETE',"@);
    lemma_replace_no_match("after(() =>"@, "cy.intercept('DELETE',"@, "await page.route('**"@);
    lemma_rule_step(s, rs, 30, "after(() =>"@, "after(() =>"@);
    assert(rs[31] == ("(req, res) => {"@, "async (route) => {\n  // TODO: Replace body with route.fulfill() or route.continue()"@));
    lemma_absent_by_length("after(() =>"@, "(req, res) => {"@);
    lemma_replace_no_match("after(() =>"@, "(req, res) => {"@, "async (route) => {\n  // TODO: Replace body with route.fulfill() or route.continue()"@);
    lemma_rule_step(s, rs, 31, "after(() =>"@, "after(() =>"@);
    assert(rs[32] == ("before(() =>"@, "test.beforeAll(async () =>"@));
    lemma_absent_by_length("after(() =>"@, "before(() =>"@);
    lemma_replace_no_match("after(() =>"@, "before(() =>"@, "test.beforeAll(async () =>"@);
    lemma_rule_step(s, rs, 32, "after(() =>"@, "after(() =>"@);
    assert(rs[33] == ("after(() =>"@, "test.afterAll(async () =>"@));
    lemma_replace_whole("after(() =>"@, "test.afterAll(async () =>"@);
    lemma_rule_step(s, rs, 33, "after(() =>"@, "test.afterAll(async () =>"@);
    assert(rs[34] == ("beforeEach(() =>"@, "test.beforeEach(async () =>"@));
    lemma_absent_by_first_char("test.afterAll(async () =>"@, "beforeEach(() =>"@);
    lemma_replace_no_match("test.afterAll(async () =>"@, "beforeEach(() =>"@, "test.beforeEach(async () =>"@);
    lemma_rule_step(s, rs, 34, "test.afterAll(async () =>"@, "test.afterAll(async () =>"@);
    assert(rs[35] == ("afterEach(() =>"@, "test.afterEach(async () =>"@));
    assert(!contains_spec("test.afterAll(async () =>"@, "afterEach(() =>"@)) by {
        assert forall|i: int| 0 <= i && i + 15 <= 25 implies #[trigger] "test.afterAll(async () =>"@.subrange(i, i + 15) != "afterEach(() =>"@ by {
            if i == 5 {
                assert("test.afterAll(async () =>"@.subrange(i, i + 15)[5] != "afterEach(() =>"@[5]);
            } else {
                assert("test.afterAll(async () =>"@.subrange(i, i + 15)[0] != "afterEach(() =>"@[0]);
            }
        }
    }
    lemma_replace_no_match("test.afterAll(async () =>"@, "afterEach(() =>"@, "test.afterEach(async () =>"@);
    lemma_rule_step(s, rs, 35, "test.afterAll(async () =>"@, "test.afterAll(async () =>"@);
    assert(rs[36] == ("describe('"@, "test.describe('"@));
    lemma_absent_by_first_char("test.afterAll(async () =>"@, "describe('"@);
    lemma_replace_no_match("test.afterAll(async () =>"@, "describe('"@, "test.describe('"@);
    lemma_rule_step(s, rs, 36, "test.afterAll(async () =>"@, "test.afterAll(async () =>"@);
    assert(rs[37] == ("it('"@, "test('"@));
    lemma_absent_by_first_char("test.afterAll(async () =>"@, "it('"@);
    lemma_replace_no_match("test.afterAll(async () =>"@, "it('"@, "test('"@);
    lemma_rule_step(s, rs, 37, "test.afterAll(async () =>"@, "test.afterAll(async () =>"@);
    assert(rs[38] == ("it.only('"@, "test.only('"@));
    lemma_absent_by_first_char("test.afterAll(async () =>"@, "it.only('"@);
    lemma_replace_no_match("test.afterAll(async () =>"@, "it.only('"@, "test.only('"@);
    lemma_rule_step(s, rs, 38, "test.afterAll(async () =>"@, "test.afterAll(async () =>"@);
    assert(rs[39] == ("it.skip('"@, "test.skip('"@));
    lemma_absent_by_first_char("test.afterAll(async () =>"@, "it.skip('"@);
    lemma_replace_no_match("test.afterAll(async () =>"@, "it.skip('"@, "test.skip('"@);
    lemma_rule_step(s, rs, 39, "test.afterAll(async () =>"@, "test.afterAll(async () =>"@);
    assert(rs[40] == ("xit('"@, "test.skip('"@));
    lemma_absent_by_first_char("test.afterAll(async () =>"@, "xit('"@);
    lemma_replace_no_match("test.afterAll(async () =>"@, "xit('"@, "test.skip('"@);
    lemma_rule_step(s, rs, 40, "test.afterAll(async () =>"@, "test.afterAll(async () =>"@);
    assert(rs[41] == ("describe.only('"@, "test.describe.only('"@));
    lemma_absent_by_first_char("test.afterAll(async () =>"@, "describe.only('"@);
    lemma_replace_no_match("test.afterAll(async () =>"@, "describe.only('"@, "test.describe.only('"@);
    lemma_rule_step(s, rs, 41, "test.afterAll(async () =>"@, "test.afterAll(async () =>"@);
    assert(rs[42] == ("describe.skip('"@, "test.describe.skip('"@));
    lemma_absent_by_first_char("test.afterAll(async () =>"@, "describe.skip('"@);
    lemma_replace_no_match("test.afterAll(async () =>"@, "describe.skip('"@, "test.describe.skip('"@);
    lemma_rule_step(s, rs, 42, "test.afterAll(async () =>"@, "test.afterAll(async () =>"@);
    assert(rs.take(43) =~= rs);
}

/// `beforeEach(() =>` alone is rewritten to `test.beforeEach(async () =>`.
proof fn lemma_hook_before_each()
    ensures
        apply_rules("beforeEach(() =>"@, cypress_file_rules()) == "test.beforeEach(async () =>"@,
{
    reveal_strlit("(req, res) => {");
    reveal_strlit(".clear()");
    reveal_strlit(".should('be.visible')");
    reveal_strlit(".type(");
    reveal_strlit("after(() =>");
    reveal_strlit("afterEach(() =>");
    reveal_strlit("before(() =>");
    reveal_strlit("beforeEach(() =>");
    reveal_strlit("cy.clear()");
    reveal_strlit("cy.click()");
    reveal_strlit("cy.contains(");
    reveal_strlit("cy.contains('");
    reveal_strlit("cy.contains(\"");
    reveal_strlit("cy.contains(`");
    reveal_strlit("cy.dblclick()");
    reveal_strlit("cy.get(");
    reveal_strlit("cy.get('");
    reveal_strlit("cy.get(\"");
    reveal_strlit("cy.get(`");
    reveal_strlit("cy.intercept('DELETE',");
    reveal_strlit("cy.intercept('GET',");
    reveal_strlit("cy.intercept('POST',");
    reveal_strlit("cy.intercept('PUT',");
    reveal_strlit("cy.rightclick()");
    reveal_strlit("cy.should('be.disabled')");
    reveal_strlit("cy.should('be.enabled')");
    reveal_strlit("cy.should('be.visible')");
    reveal_strlit("cy.should('exist')");
    reveal_strlit("cy.should('have.class',");
    reveal_strlit("cy.should('have.text',");
    reveal_strlit("cy.should('have.value',");
    reveal_strlit("cy.should('not.be.visible')");
    reveal_strlit("cy.type(");
    reveal_strlit("cy.visit(");
    reveal_strlit("describe('");
    reveal_strlit("describe.only('");
    reveal_strlit("describe.skip('");
    reveal_strlit("from 'cypress'");
    reveal_strlit("import cy from 'cypress';");
    reveal_strlit("it('");
    reveal_strlit("it.only('");
    reveal_strlit("it.skip('");
    reveal_strlit("test.beforeEach(async () =>");
    reveal_strlit("xit('");
    let rs = cypress_file_rules();
    let s = "beforeEach(() =>"@;
    assert(rs.take(0) =~= Seq::<(Seq<char>, Seq<char>)>::empty());
    assert(rs[0] == ("import cy from 'cypress';"@, "import { test, expect, page } from 'tsheet';"@));
    lemma_absent_by_length("beforeEach(() =>"@, "import cy from 'cypress';"@);
    lemma_replace_no_match("beforeEach(() =>"@, "import cy from 'cypress';"@, "import { test, expect, page } from 'tsheet';"@);
    lemma_rule_step(s, rs, 0, "beforeEach(() =>"@, "beforeEach(() =>"@);
    assert(rs[1] == ("from 'cypress'"@, "from 'tsheet'"@));
    assert(!contains_spec("beforeEach(() =>"@, "from 'cypress'"@)) by {
        assert forall|i: int| 0 <= i && i + 14 <= 16 implies #[trigger] "beforeEach(() =>"@.subrange(i, i + 14) != "from 'cypress'"@ by {
            if i == 2 {
                assert("beforeEach(() =>"@.subrange(i, i + 14)[1] != "from 'cypress'"@[1]);
            } else {
                assert("beforeEach(() =>"@.subrange(i, i + 14)[0] != "from 'cypress'"@[0]);
            }
        }
    }
    lemma_replace_no_match("beforeEach(() =>"@, "from 'cypress'"@, "from 'tsheet'"@);
    lemma_rule_step(s, rs, 1, "beforeEach(() =>"@, "beforeEach(() =>"@);
    assert(rs[2] == ("cy.visit("@, "await page.goto("@));
    assert(!contains_spec("beforeEach(() =>"@, "cy.visit("@)) by {
        assert forall|i: int| 0 <= i && i + 9 <= 16 implies #[trigger] "beforeEach(() =>"@.subrange(i, i + 9) != "cy.visit("@ by {
            assert("beforeEach(() =>"@.subrange(i, i + 9)[0] != "cy.visit("@[0]);
        }
    }
    lemma_replace_no_match("beforeEach(() =>"@, "cy.visit("@, "await page.goto("@);
    lemma_rule_step(s, rs, 2, "beforeEach(() =>"@, "beforeEach(() =>"@);
    assert(rs[3] == ("cy.get('"@, "await page.locator('"@));
    assert(!contains_spec("beforeEach(() =>"@, "cy.get('"@)) by {
        assert forall|i: int| 0 <= i && i + 8 <= 16 implies #[trigger] "beforeEach(() =>"@.subrange(i, i + 8) != "cy.get('"@ by {
            if i == 8 {
                assert("beforeEach(() =>"@.subrange(i, i + 8)[1] != "cy.get('"@[1]);
            } else {
                assert("beforeEach(() =>"@.subrange(i, i + 8)[0] != "cy.get('"@[0]);
            }
        }
    }
    lemma_replace_no_match("beforeEach(() =>"@, "cy.get('"@, "await page.locator('"@);
    lemma_rule_step(s, rs, 3, "beforeEach(() =>"@, "beforeEach(() =>"@);
    assert(rs[4] == ("cy.get(\""@, "await page.locator(\""@));
    assert(!contains_spec("beforeEach(() =>"@, "cy.get(\""@)) by {
        assert forall|i: int| 0 <= i && i + 8 <= 16 implies #[trigger] "beforeEach(() =>"@.subrange(i, i + 8) != "cy.get(\""@ by {
            if i == 8 {
                assert("beforeEach(() =>"@.subrange(i, i + 8)[1] != "cy.get(\""@[1]);
            } else {
                assert("beforeEach(() =>"@.subrange(i, i + 8)[0] != "cy.get(\""@[0]);
            }
        }
    }
    lemma_replace_no_match("beforeEach(() =>"@, "cy.get(\""@, "await page.locator(\""@);
    lemma_rule_step(s, rs, 4, "beforeEach(() =>"@, "beforeEach(() =>"@);
    assert(rs[5] == ("cy.get(`"@, "await page.locator(`"@));
    assert(!contains_spec("beforeEach(() =>"@, "cy.get(`"@)) by {
        assert forall|i: int| 0 <= i && i + 8 <= 16 implies #[trigger] "beforeEach(() =>"@.subrange(i, i + 8) != "cy.get(`"@ by {
            if i == 8 {
                assert("beforeEach(() =>"@.subrange(i, i + 8)[1] != "cy.get(`"@[1]);
            } else {
                assert("beforeEach(() =>"@.subrange(i, i + 8)[0] != "cy.get(`"@[0]);
            }
        }
    }
    lemma_replace_no_match("beforeEach(() =>"@, "cy.get(`"@, "await page.locator(`"@);
    lemma_rule_step(s, rs, 5, "beforeEach(() =>"@, "beforeEach(() =>"@);
    assert(rs[6] == ("cy.get("@, "await page.locator("@));
    assert(!contains_spec("beforeEach(() =>"@, "cy.get("@)) by {
        assert forall|i: int| 0 <= i && i + 7 <= 16 implies #[trigger] "beforeEach(() =>"@.subrange(i, i + 7) != "cy.get("@ by {
            if i == 8 {
                assert("beforeEach(() =>"@.subrange(i, i + 7)[1] != "cy.get("@[1]);
            } else {
                assert("beforeEach(() =>"@.subrange(i, i + 7)[0] != "cy.get("@[0]);
            }
        }
    }
    lemma_replace_no_match("beforeEach(() =>"@, "cy.get("@, "await page.locator("@);
    lemma_rule_step(s, rs, 6, "beforeEach(() =>"@, "beforeEach(() =>"@);
    assert(rs[7] == ("cy.contains('"@, "await page.getByText('"@));
    assert(!contains_spec("beforeEach(() =>"@, "cy.contains('"@)) by {
        assert forall|i: int| 0 <= i && i + 13 <= 16 implies #[trigger] "beforeEach(() =>"@.subrange(i, i + 13) != "cy.contains('"@ by {
            assert("beforeEach(() =>"@.subrange(i, i + 13)[0] != "cy.contains('"@[0]);
        }
    }
    lemma_replace_no_match("beforeEach(() =>"@, "cy.contains('"@, "await page.getByText('"@);
    lemma_rule_step(s, rs, 7, "beforeEach(() =>"@, "beforeEach(() =>"@);
    assert(rs[8] == ("cy.contains(\""@, "await page.getByText(\""@));
    assert(!contains_spec("beforeEach(() =>"@, "cy.contains(\""@)) by {
        assert forall|i: int| 0 <= i && i + 13 <= 16 implies #[trigger] "beforeEach(() =>"@.subrange(i, i + 13) != "cy.contains(\""@ by {
            assert("beforeEach(() =>"@.subrange(i, i + 13)[0] != "cy.contains(\""@[0]);
        }
    }
    lemma_replace_no_match("beforeEach(() =>"@, "cy.contains(\""@, "await page.getByText(\""@);
    lemma_rule_step(s, rs, 8, "beforeEach(() =>"@, "beforeEach(() =>"@);
    assert(rs[9] == ("cy.contains(`"@, "await page.getByText(`"@));
    assert(!contains_spec("beforeEach(() =>"@, "cy.contains(`"@)) by {
        assert forall|i: int| 0 <= i && i + 13 <= 16 implies #[trigger] "beforeEach(() =>"@.subrange(i, i + 13) != "cy.contains(`"@ by {
            assert("beforeEach(() =>"@.subrange(i, i + 13)[0] != "cy.contains(`"@[0]);
        }
    }
    lemma_replace_no_match("beforeEach(() =>"@, "cy.contains(`"@, "await page.getByText(`"@);
    lemma_rule_step(s, rs, 9, "beforeEach(() =>"@, "beforeEach(() =>"@);
    assert(rs[10] == ("cy.contains("@, "await page.getByText("@));
    assert(!contains_spec("beforeEach(() =>"@, "cy.contains("@)) by {
        assert forall|i: int| 0 <= i && i + 12 <= 16 implies #[trigger] "beforeEach(() =>"@.subrange(i, i + 12) != "cy.contains("@ by {
            assert("beforeEach(() =>"@.subrange(i, i + 12)[0] != "cy.contains("@[0]);
        }
    }
    lemma_replace_no_match("beforeEach(() =>"@, "cy.contains("@, "await page.getByText("@);
    lemma_rule_step(s, rs, 10, "beforeEach(() =>"@, "beforeEach(() =>"@);
    assert(rs[11] == ("cy.click()"@, ".click()"@));
    assert(!contains_spec("beforeEach(() =>"@, "cy.click()"@)) by {
        assert forall|i: int| 0 <= i && i + 10 <= 16 implies #[trigger] "beforeEach(() =>"@.subrange(i, i + 10) != "cy.click()"@ by {
            assert("beforeEach(() =>"@.subrange(i, i + 10)[0] != "cy.click()"@[0]);
        }
    }
    lemma_replace_no_match("beforeEach(() =>"@, "cy.click()"@, ".click()"@);
    lemma_rule_step(s, rs, 11, "beforeEach(() =>"@, "beforeEach(() =>"@);
    assert(rs[12] == ("cy.dblclick()"@, ".dblclick()"@));
    assert(!contains_spec("beforeEach(() =>"@, "cy.dblclick()"@)) by {
        assert forall|i: int| 0 <= i && i + 13 <= 16 implies #[trigger] "beforeEach(() =>"@.subrange(i, i + 13) != "cy.dblclick()"@ by {
            assert("beforeEach(() =>"@.subrange(i, i + 13)[0] != "cy.dblclick()"@[0]);
        }
    }
    lemma_replace_no_match("beforeEach(() =>"@, "cy.dblclick()"@, ".dblclick()"@);
    lemma_rule_step(s, rs, 12, "beforeEach(() =>"@, "beforeEach(() =>"@);
    assert(rs[13] == ("cy.rightclick()"@, ".click({ button: 'right' })"@));
    assert(!contains_spec("beforeEach(() =>"@, "cy.rightclick()"@)) by {
        assert forall|i: int| 0 <= i && i + 15 <= 16 implies #[trigger] "beforeEach(() =>"@.subrange(i, i + 15) != "cy.rightclick()"@ by {
            assert("beforeEach(() =>"@.subrange(i, i + 15)[0] != "cy.rightclick()"@[0]);
        }
    }
    lemma_replace_no_match("beforeEach(() =>"@, "cy.rightclick()"@, ".click({ button: 'right' })"@);
    lemma_rule_step(s, rs, 13, "beforeEach(() =>"@, "beforeEach(() =>"@);
    assert(rs[14] == ("cy.type("@, ".fill("@));
    assert(!contains_spec("beforeEach(() =>"@, "cy.type("@)) by {
        assert forall|i: int| 0 <= i && i + 8 <= 16 implies #[trigger] "beforeEach(() =>"@.subrange(i, i + 8) != "cy.type("@ by {
            if i == 8 {
                assert("beforeEach(() =>"@.subrange(i, i + 8)[1] != "cy.type("@[1]);
            } else {
                assert("beforeEach(() =>"@.subrange(i, i + 8)[0] != "cy.type("@[0]);
            }
        }
    }
    lemma_replace_no_match("beforeEach(() =>"@, "cy.type("@, ".fill("@);
    lemma_rule_step(s, rs, 14, "beforeEach(() =>"@, "beforeEach(() =>"@);
    assert(rs[15] == (".type("@, ".fill("@));
    lemma_absent_by_first_char("beforeEach(() =>"@, ".type("@);
    lemma_replace_no_match("beforeEach(() =>"@, ".type("@, ".fill("@);
    lemma_rule_step(s, rs, 15, "beforeEach(() =>"@, "beforeEach(() =>"@);
    assert(rs[16] == ("cy.clear()"@, ".fill('')"@));
    assert(!contains_spec("beforeEach(() =>"@, "cy.clear()"@)) by {
        assert forall|i: int| 0 <= i && i + 10 <= 16 implies #[trigger] "beforeEach(() =>"@.subrange(i, i + 10) != "cy.clear()"@ by {
            assert("beforeEach(() =>"@.subrange(i, i + 10)[0] != "cy.clear()"@[0]);
        }
    }
    lemma_replace_no_match("beforeEach(() =>"@, "cy.clear()"@, ".fill('')"@);
    lemma_rule_step(s, rs, 16, "beforeEach(() =>"@, "beforeEach(() =>"@);
    assert(rs[17] == (".clear()"@, ".fill('')"@));
    lemma_absent_by_first_char("beforeEach(() =>"@, ".clear()"@);
    lemma_replace_no_match("beforeEach(() =>"@, ".clear()"@, ".fill('')"@);
    lemma_rule_step(s, rs, 17, "beforeEach(() =>"@, "beforeEach(() =>"@);
    assert(rs[18] == ("cy.should('be.visible')"@, "expect(locator).toBeVisible()"@));
    lemma_absent_by_length("beforeEach(() =>"@, "cy.should('be.visible')"@);
    lemma_replace_no_match("beforeEach(() =>"@, "cy.should('be.visible')"@, "expect(locator).toBeVisible()"@);
    lemma_rule_step(s, rs, 18, "beforeEach(() =>"@, "beforeEach(() =>"@);
    assert(rs[19] == (".should('be.visible')"@, "expect(locator).toBeVisible()"@));
    lemma_absent_by_length("beforeEach(() =>"@, ".should('be.visible')"@);
    lemma_replace_no_match("beforeEach(() =>"@, ".should('be.visible')"@, "expect(locator).toBeVisible()"@);
    lemma_rule_step(s, rs, 19, "beforeEach(() =>"@, "beforeEach(() =>"@);
    assert(rs[20] == ("cy.should('not.be.visible')"@, "expect(locator).not.toBeVisible()"@));
    lemma_absent_by_length("beforeEach(() =>"@, "cy.should('not.be.visible')"@);
    lemma_replace_no_match("beforeEach(() =>"@, "cy.should('not.be.visible')"@, "expect(locator).not.toBeVisible()"@);
    lemma_rule_step(s, rs, 20, "beforeEach(() =>"@, "beforeEach(() =>"@);
    assert(rs[21] == ("cy.should('have.text',"@, "expect(locator).toHaveText("@));
    lemma_absent_by_length("beforeEach(() =>"@, "cy.should('have.text',"@);
    lemma_replace_no_match("beforeEach(() =>"@, "cy.should('have.text',"@, "expect(locator).toHaveText("@);
    lemma_rule_step(s, rs, 21, "beforeEach(() =>"@, "beforeEach(() =>"@);
    assert(rs[22] == ("cy.should('have.value',"@, "expect(locator).toHaveValue("@));
    lemma_absent_by_length("beforeEach(() =>"@, "cy.should('have.value',"@);
    lemma_replace_no_match("beforeEach(() =>"@, "cy.should('have.value',"@, "expect(locator).toHaveValue("@);
    lemma_rule_step(s, rs, 22, "beforeEach(() =>"@, "beforeEach(() =>"@);
    assert(rs[23] == ("cy.should('have.class',"@, "expect(locator).toHaveClass("@));
    lemma_absent_by_length("beforeEach(() =>"@, "cy.should('have.class',"@);
    lemma_replace_no_match("beforeEach(() =>"@, "cy.should('have.class',"@, "expect(locator).toHaveClass("@);
    lemma_rule_step(s, rs, 23, "beforeEach(() =>"@, "beforeEach(() =>"@);
    assert(rs[24] == ("cy.should('be.enabled')"@, "expect(locator).toBeEnabled()"@));
    lemma_absent_by_length("beforeEach(() =>"@, "cy.should('be.enabled')"@);
    lemma_replace_no_match("beforeEach(() =>"@, "cy.should('be.enabled')"@, "expect(locator).toBeEnabled()"@);
    lemma_rule_step(s, rs, 24, "beforeEach(() =>"@, "beforeEach(() =>"@);
    assert(rs[25] == ("cy.should('be.disabled')"@, "expect(locator).toBeDisabled()"@));
    lemma_absent_by_length("beforeEach(() =>"@, "cy.should('be.disabled')"@);
    lemma_replace_no_match("beforeEach(() =>"@, "cy.should('be.disabled')"@, "expect(locator).toBeDisabled()"@);
    lemma_rule_step(s, rs, 25, "beforeEach(() =>"@, "beforeEach(() =>"@);
    assert(rs[26] == ("cy.should('exist')"@, "// TurboSheet auto-waits for element existence"@));
    lemma_absent_by_length("beforeEach(() =>"@, "cy.should('exist')"@);
    lemma_replace_no_match("beforeEach(() =>"@, "cy.should('exist')"@, "// TurboSheet auto-waits for element existence"@);
    lemma_rule_step(s, rs, 26, "beforeEach(() =>"@, "beforeEach(() =>"@);
    assert(rs[27] == ("cy.intercept('GET',"@, "await page.route('**"@));
    lemma_absent_by_length("beforeEach(() =>"@, "cy.intercept('GET',"@);
    lemma_replace_no_match("beforeEach(() =>"@, "cy.intercept('GET',"@, "await page.route('**"@);
    lemma_rule_step(s, rs, 27, "beforeEach(() =>"@, "beforeEach(() =>"@);
    assert(rs[28] == ("cy.intercept('POST',"@, "await page.route('**"@));
    lemma_absent_by_length("beforeEach(() =>"@, "cy.intercept('POST',"@);
    lemma_replace_no_match("beforeEach(() =>"@, "cy.intercept('POST',"@, "await page.route('**"@);
    lemma_rule_step(s, rs, 28, "beforeEach(() =>"@, "beforeEach(() =>"@);
    assert(rs[29] == ("cy.intercept('PUT',"@, "await page.route('**"@));
    lemma_absent_by_length("beforeEach(() =>"@, "cy.intercept('PUT',"@);
    lemma_replace_no_match("beforeEach(() =>"@, "cy.intercept('PUT',"@, "await page.route('**"@);
    lemma_rule_step(s, rs, 29, "beforeEach(() =>"@, "beforeEach(() =>"@);
    assert(rs[30] == ("cy.intercept('DELETE',"@, "await page.route('**"@));
    lemma_absent_by_length("beforeEach(() =>"@, "cy.intercept('DELETE',"@);
    lemma_replace_no_match("beforeEach(() =>"@, "cy.intercept('DELETE',"@, "await page.route('**"@);
    lemma_rule_step(s, rs, 30, "beforeEach(() =>"@, "beforeEach(() =>"@);
    assert(rs[31] == ("(req, res) => {"@, "async (route) => {\n  // TODO: Replace body with route.fulfill() or route.continue()"@));
    assert(!contains_spec("beforeEach(() =>"@, "(req, res) => {"@)) by {
        assert forall|i: int| 0 <= i && i + 15 <= 16 implies #[trigger] "beforeEach(() =>"@.subrange(i, i + 15) != "(req, res) => {"@ by {
            assert("beforeEach(() =>"@.subrange(i, i + 15)[0] != "(req, res) => {"@[0]);
        }
    }
    lemma_replace_no_match("beforeEach(() =>"@, "(req, res) => {"@, "async (route) => {\n  // TODO: Replace body with route.fulfill() or route.continue()"@);
    lemma_rule_step(s, rs, 31, "beforeEach(() =>"@, "beforeEach(() =>"@);
    assert(rs[32] == ("before(() =>"@, "test.beforeAll(async () =>"@));
    assert(!contains_spec("beforeEach(() =>"@, "before(() =>"@)) by {
        assert forall|i: int| 0 <= i && i + 12 <= 16 implies #[trigger] "beforeEach(() =>"@.subrange(i, i + 12) != "before(() =>"@ by {
            if i == 0 {
                assert("beforeEach(() =>"@.subrange(i, i + 12)[6] != "before(() =>"@[6]);
            } else {
                assert("beforeEach(() =>"@.subrange(i, i + 12)[0] != "before(() =>"@[0]);
            }
        }
    }
    lemma_replace_no_match("beforeEach(() =>"@, "before(() =>"@, "test.beforeAll(async () =>"@);
    lemma_rule_step(s, rs, 32, "beforeEach(() =>"@, "beforeEach(() =>"@);
    assert(rs[33] == ("after(() =>"@, "test.afterAll(async () =>"@));
    assert(!contains_spec("beforeEach(() =>"@, "after(() =>"@)) by {
        assert forall|i: int| 0 <= i && i + 11 <= 16 implies #[trigger] "beforeEach(() =>"@.subrange(i, i + 11) != "after(() =>"@ by {
            assert("beforeEach(() =>"@.subrange(i, i + 11)[0] != "after(() =>"@[0]);
        }
    }
    lemma_replace_no_match("beforeEach(() =>"@, "after(() =>"@, "test.afterAll(async () =>"@);
    lemma_rule_step(s, rs, 33, "beforeEach(() =>"@, "beforeEach(() =>"@);
    assert(rs[34] == ("beforeEach(() =>"@, "test.beforeEach(async () =>"@));
    lemma_replace_whole("beforeEach(() =>"@, "test.beforeEach(async () =>"@);
    lemma_rule_step(s, rs, 34, "beforeEach(() =>"@, "test.beforeEach(async () =>"@);
    assert(rs[35] == ("afterEach(() =>"@, "test.afterEach(async () =>"@));
    assert(!contains_spec("test.beforeEach(async () =>"@, "afterEach(() =>"@)) by {
        assert forall|i: int| 0 <= i && i + 15 <= 27 implies #[trigger] "test.beforeEach(async () =>"@.subrange(i, i + 15) != "afterEach(() =>"@ by {
            if i == 12 {
                assert("test.beforeEach(async () =>"@.subrange(i, i + 15)[1] != "afterEach(() =>"@[1]);
            } else {
                assert("test.beforeEach(async () =>"@.subrange(i, i + 15)[0] != "afterEach(() =>"@[0]);
            }
        }
    }
    lemma_replace_no_match("test.beforeEach(async () =>"@, "afterEach(() =>"@, "test.afterEach(async () =>"@);
    lemma_rule_step(s, rs, 35, "test.beforeEach(async () =>"@, "test.beforeEach(async () =>"@);
    assert(rs[36] == ("describe('"@, "test.describe('"@));
    lemma_absent_by_first_char("test.beforeEach(async () =>"@, "describe('"@);
    lemma_replace_no_match("test.beforeEach(async () =>"@, "describe('"@, "test.describe('"@);
    lemma_rule_step(s, rs, 36, "test.beforeEach(async () =>"@, "test.beforeEach(async () =>"@);
    assert(rs[37] == ("it('"@, "test('"@));
    lemma_absent_by_first_char("test.beforeEach(async () =>"@, "it('"@);
    lemma_replace_no_match("test.beforeEach(async () =>"@, "it('"@, "test('"@);
    lemma_rule_step(s, rs, 37, "test.beforeEach(async () =>"@, "test.beforeEach(async () =>"@);
    assert(rs[38] == ("it.only('"@, "test.only('"@));
    lemma_absent_by_first_char("test.beforeEach(async () =>"@, "it.only('"@);
    lemma_replace_no_match("test.beforeEach(async () =>"@, "it.only('"@, "test.only('"@);
    lemma_rule_step(s, rs, 38, "test.beforeEach(async () =>"@, "test.beforeEach(async () =>"@);
    assert(rs[39] == ("it.skip('"@, "test.skip('"@));
    lemma_absent_by_first_char("test.beforeEach(async () =>"@, "it.skip('"@);
    lemma_replace_no_match("test.beforeEach(async () =>"@, "it.skip('"@, "test.skip('"@);
    lemma_rule_step(s, rs, 39, "test.beforeEach(async () =>"@, "test.beforeEach(async () =>"@);
    assert(rs[40] == ("xit('"@, "test.skip('"@));
    lemma_absent_by_first_char("test.beforeEach(async () =>"@, "xit('"@);
    lemma_replace_no_match("test.beforeEach(async () =>"@, "xit('"@, "test.skip('"@);
    lemma_rule_step(s, rs, 40, "test.beforeEach(async () =>"@, "test.beforeEach(async () =>"@);
    assert(rs[41] == ("describe.only('"@, "test.describe.only('"@));
    lemma_absent_by_first_char("test.beforeEach(async () =>"@, "describe.only('"@);
    lemma_replace_no_match("test.beforeEach(async () =>"@, "describe.only('"@, "test.describe.only('"@);
    lemma_rule_step(s, rs, 41, "test.beforeEach(async () =>"@, "test.beforeEach(async () =>"@);
    assert(rs[42] == ("describe.skip('"@, "test.describe.skip('"@));
    lemma_absent_by_first_char("test.beforeEach(async () =>"@, "describe.skip('"@);
    lemma_replace_no_match("test.beforeEach(async () =>"@, "describe.skip('"@, "test.describe.skip('"@);
    lemma_rule_step(s, rs, 42, "test.beforeEach(async () =>"@, "test.beforeEach(async () =>"@);
    assert(rs.take(43) =~= rs);
}

/// `afterEach(() =>` alone is rewritten to `test.afterEach(async () =>`.
proof fn lemma_hook_after_each()
    ensures
        apply_rules("afterEach(() =>"@, cypress_file_rules()) == "test.afterEach(async () =>"@,
{
    reveal_strlit("(req, res) => {");
    reveal_strlit(".clear()");
    reveal_strlit(".should('be.visible')");
    reveal_strlit(".type(");
    reveal_strlit("after(() =>");
    reveal_strlit("afterEach(() =>");
    reveal_strlit("before(() =>");
    reveal_strlit("beforeEach(() =>");
    reveal_strlit("cy.clear()");
    reveal_strlit("cy.click()");
    reveal_strlit("cy.contains(");
    reveal_strlit("cy.contains('");
    reveal_strlit("cy.contains(\"");
    reveal_strlit("cy.contains(`");
    reveal_strlit("cy.dblclick()");
    reveal_strlit("cy.get(");
    reveal_strlit("cy.get('");
    reveal_strlit("cy.get(\"");
    reveal_strlit("cy.get(`");
    reveal_strlit("cy.intercept('DELETE',");
    reveal_strlit("cy.intercept('GET',");
    reveal_strlit("cy.intercept('POST',");
    reveal_strlit("cy.intercept('PUT',");
    reveal_strlit("cy.rightclick()");
    reveal_strlit("cy.should('be.disabled')");
    reveal_strlit("cy.should('be.enabled')");
    reveal_strlit("cy.should('be.visible')");
    reveal_strlit("cy.should('exist')");
    reveal_strlit("cy.should('have.class',");
    reveal_strlit("cy.should('have.text',");
    reveal_strlit("cy.should('have.value',");
    reveal_strlit("cy.should('not.be.visible')");
    reveal_strlit("cy.type(");
    reveal_strlit("cy.visit(");
    reveal_strlit("describe('");
    reveal_strlit("describe.only('");
    reveal_strlit("describe.skip('");
    reveal_strlit("from 'cypress'");
    reveal_strlit("import cy from 'cypress';");
    reveal_strlit("it('");
    reveal_strlit("it.only('");
    reveal_strlit("it.skip('");
    reveal_strlit("test.afterEach(async () =>");
    reveal_strlit("xit('");
    let rs = cypress_file_rules();
    let s = "afterEach(() =>"@;
    assert(rs.take(0) =~= Seq::<(Seq<char>, Seq<char>)>::empty());
    assert(rs[0] == ("import cy from 'cypress';"@, "import { test, expect, page } from 'tsheet';"@));
    lemma_absent_by_length("afterEach(() =>"@, "import cy from 'cypress';"@);
    lemma_replace_no_match("afterEach(() =>"@, "import cy from 'cypress';"@, "import { test, expect, page } from 'tsheet';"@);
    lemma_rule_step(s, rs, 0, "afterEach(() =>"@, "afterEach(() =>"@);
    assert(rs[1] == ("from 'cypress'"@, "from 'tsheet'"@));
    assert(!contains_spec("afterEach(() =>"@, "from 'cypress'"@)) by {
        assert forall|i: int| 0 <= i && i + 14 <= 15 implies #[trigger] "afterEach(() =>"@.subrange(i, i + 14) != "from 'cypress'"@ by {
            if i == 1 {
                assert("afterEach(() =>"@.subrange(i, i + 14)[1] != "from 'cypress'"@[1]);
            } else {
                assert("afterEach(() =>"@.subrange(i, i + 14)[0] != "from 'cypress'"@[0]);
            }
        }
    }
    lemma_replace_no_match("afterEach(() =>"@, "from 'cypress'"@, "from 'tsheet'"@);
    lemma_rule_step(s, rs, 1, "afterEach(() =>"@, "afterEach(() =>"@);
    assert(rs[2] == ("cy.visit("@, "await page.goto("@));
    assert(!contains_spec("afterEach(() =>"@, "cy.visit("@)) by {
        assert forall|i: int| 0 <= i && i + 9 <= 15 implies #[trigger] "afterEach(() =>"@.subrange(i, i + 9) != "cy.visit("@ by {
            assert("afterEach(() =>"@.subrange(i, i + 9)[0] != "cy.visit("@[0]);
        }
    }
    lemma_replace_no_match("afterEach(() =>"@, "cy.visit("@, "await page.goto("@);
    lemma_rule_step(s, rs, 2, "afterEach(() =>"@, "afterEach(() =>"@);
    assert(rs[3] == ("cy.get('"@, "await page.locator('"@));
    assert(!contains_spec("afterEach(() =>"@, "cy.get('"@)) by {
        assert forall|i: int| 0 <= i && i + 8 <= 15 implies #[trigger] "afterEach(() =>"@.subrange(i, i + 8) != "cy.get('"@ by {
            if i == 7 {
                assert("afterEach(() =>"@.subrange(i, i + 8)[1] != "cy.get('"@[1]);
            } else {
                assert("afterEach(() =>"@.subrange(i, i + 8)[0] != "cy.get('"@[0]);
            }
        }
    }
    lemma_replace_no_match("afterEach(() =>"@, "cy.get('"@, "await page.locator('"@);
    lemma_rule_step(s, rs, 3, "afterEach(() =>"@, "afterEach(() =>"@);
    assert(rs[4] == ("cy.get(\""@, "await page.locator(\""@));
    assert(!contains_spec("afterEach(() =>"@, "cy.get(\""@)) by {
        assert forall|i: int| 0 <= i && i + 8 <= 15 implies #[trigger] "afterEach(() =>"@.subrange(i, i + 8) != "cy.get(\""@ by {
            if i == 7 {
                assert("afterEach(() =>"@.subrange(i, i + 8)[1] != "cy.get(\""@[1]);
            } else {
                assert("afterEach(() =>"@.subrange(i, i + 8)[0] != "cy.get(\""@[0]);
            }
        }
    }
    lemma_replace_no_match("afterEach(() =>"@, "cy.get(\""@, "await page.locator(\""@);
    lemma_rule_step(s, rs, 4, "afterEach(() =>"@, "afterEach(() =>"@);
    assert(rs[5] == ("cy.get(`"@, "await page.locator(`"@));
    assert(!contains_spec("afterEach(() =>"@, "cy.get(`"@)) by {
        assert forall|i: int| 0 <= i && i + 8 <= 15 implies #[trigger] "afterEach(() =>"@.subrange(i, i + 8) != "cy.get(`"@ by {
            if i == 7 {
                assert("afterEach(() =>"@.subrange(i, i + 8)[1] != "cy.get(`"@[1]);
            } else {
                assert("afterEach(() =>"@.subrange(i, i + 8)[0] != "cy.get(`"@[0]);
            }
        }
    }
    lemma_replace_no_match("afterEach(() =>"@, "cy.get(`"@, "await page.locator(`"@);
    lemma_rule_step(s, rs, 5, "afterEach(() =>"@, "afterEach(() =>"@);
    assert(rs[6] == ("cy.get("@, "await page.locator("@));
    assert(!contains_spec("afterEach(() =>"@, "cy.get("@)) by {
        assert forall|i: int| 0 <= i && i + 7 <= 15 implies #[trigger] "afterEach(() =>"@.subrange(i, i + 7) != "cy.get("@ by {
            if i == 7 {
                assert("afterEach(() =>"@.subrange(i, i + 7)[1] != "cy.get("@[1]);
            } else {
                assert("afterEach(() =>"@.subrange(i, i + 7)[0] != "cy.get("@[0]);
            }
        }
    }
    lemma_replace_no_match("afterEach(() =>"@, "cy.get("@, "await page.locator("@);
    lemma_rule_step(s, rs, 6, "afterEach(() =>"@, "afterEach(() =>"@);
    assert(rs[7] == ("cy.contains('"@, "await page.getByText('"@));
    assert(!contains_spec("afterEach(() =>"@, "cy.contains('"@)) by {
        assert forall|i: int| 0 <= i && i + 13 <= 15 implies #[trigger] "afterEach(() =>"@.subrange(i, i + 13) != "cy.contains('"@ by {
            assert("afterEach(() =>"@.subrange(i, i + 13)[0] != "cy.contains('"@[0]);
        }
    }
    lemma_replace_no_match("afterEach(() =>"@, "cy.contains('"@, "await page.getByText('"@);
    lemma_rule_step(s, rs, 7, "afterEach(() =>"@, "afterEach(() =>"@);
    assert(rs[8] == ("cy.contains(\""@, "await page.getByText(\""@));
    assert(!contains_spec("afterEach(() =>"@, "cy.contains(\""@)) by {
        assert forall|i: int| 0 <= i && i + 13 <= 15 implies #[trigger] "afterEach(() =>"@.subrange(i, i + 13) != "cy.contains(\""@ by {
            assert("afterEach(() =>"@.subrange(i, i + 13)[0] != "cy.contains(\""@[0]);
        }
    }
    lemma_replace_no_match("afterEach(() =>"@, "cy.contains(\""@, "await page.getByText(\""@);
    lemma_rule_step(s, rs, 8, "afterEach(() =>"@, "afterEach(() =>"@);
    assert(rs[9] == ("cy.contains(`"@, "await page.getByText(`"@));
    assert(!contains_spec("afterEach(() =>"@, "cy.contains(`"@)) by {
        assert forall|i: int| 0 <= i && i + 13 <= 15 implies #[trigger] "afterEach(() =>"@.subrange(i, i + 13) != "cy.contains(`"@ by {
            assert("afterEach(() =>"@.subrange(i, i + 13)[0] != "cy.contains(`"@[0]);
        }
    }
    lemma_replace_no_match("afterEach(() =>"@, "cy.contains(`"@, "await page.getByText(`"@);
    lemma_rule_step(s, rs, 9, "afterEach(() =>"@, "afterEach(() =>"@);
    assert(rs[10] == ("cy.contains("@, "await page.getByText("@));
    assert(!contains_spec("afterEach(() =>"@, "cy.contains("@)) by {
        assert forall|i: int| 0 <= i && i + 12 <= 15 implies #[trigger] "afterEach(() =>"@.subrange(i, i + 12) != "cy.contains("@ by {
            assert("afterEach(() =>"@.subrange(i, i + 12)[0] != "cy.contains("@[0]);
        }
    }
    lemma_replace_no_match("afterEach(() =>"@, "cy.contains("@, "await page.getByText("@);
    lemma_rule_step(s, rs, 10, "afterEach(() =>"@, "afterEach(() =>"@);
    assert(rs[11] == ("cy.click()"@, ".click()"@));
    assert(!contains_spec("afterEach(() =>"@, "cy.click()"@)) by {
        assert forall|i: int| 0 <= i && i + 10 <= 15 implies #[trigger] "afterEach(() =>"@.subrange(i, i + 10) != "cy.click()"@ by {
            assert("afterEach(() =>"@.subrange(i, i + 10)[0] != "cy.click()"@[0]);
        }
    }
    lemma_replace_no_match("afterEach(() =>"@, "cy.click()"@, ".click()"@);
    lemma_rule_step(s, rs, 11, "afterEach(() =>"@, "afterEach(() =>"@);
    assert(rs[12] == ("cy.dblclick()"@, ".dblclick()"@));
    assert(!contains_spec("afterEach(() =>"@, "cy.dblclick()"@)) by {
        assert forall|i: int| 0 <= i && i + 13 <= 15 implies #[trigger] "afterEach(() =>"@.subrange(i, i + 13) != "cy.dblclick()"@ by {
            assert("afterEach(() =>"@.subrange(i, i + 13)[0] != "cy.dblclick()"@[0]);
        }
    }
    lemma_replace_no_match("afterEach(() =>"@, "cy.dblclick()"@, ".dblclick()"@);
    lemma_rule_step(s, rs, 12, "afterEach(() =>"@, "afterEach(() =>"@);
    assert(rs[13] == ("cy.rightclick()"@, ".click({ button: 'right' })"@));
    assert(!contains_spec("afterEach(() =>"@, "cy.rightclick()"@)) by {
        assert forall|i: int| 0 <= i && i + 15 <= 15 implies #[trigger] "afterEach(() =>"@.subrange(i, i + 15) != "cy.rightclick()"@ by {
            assert("afterEach(() =>"@.subrange(i, i + 15)[0] != "cy.rightclick()"@[0]);
        }
    }
    lemma_replace_no_match("afterEach(() =>"@, "cy.rightclick()"@, ".click({ button: 'right' })"@);
    lemma_rule_step(s, rs, 13, "afterEach(() =>"@, "afterEach(() =>"@);
    assert(rs[14] == ("cy.type("@, ".fill("@));
    assert(!contains_spec("afterEach(() =>"@, "cy.type("@)) by {
        assert forall|i: int| 0 <= i && i + 8 <= 15 implies #[trigger] "afterEach(() =>"@.subrange(i, i + 8) != "cy.type("@ by {
            if i == 7 {
                assert("afterEach(() =>"@.subrange(i, i + 8)[1] != "cy.type("@[1]);
            } else {
                assert("afterEach(() =>"@.subrange(i, i + 8)[0] != "cy.type("@[0]);
            }
        }
    }
    lemma_replace_no_match("afterEach(() =>"@, "cy.type("@, ".fill("@);
    lemma_rule_step(s, rs, 14, "afterEach(() =>"@, "afterEach(() =>"@);
    assert(rs[15] == (".type("@, ".fill("@));
    lemma_absent_by_first_char("afterEach(() =>"@, ".type("@);
    lemma_replace_no_match("afterEach(() =>"@, ".type("@, ".fill("@);
    lemma_rule_step(s, rs, 15, "afterEach(() =>"@, "afterEach(() =>"@);
    assert(rs[16] == ("cy.clear()"@, ".fill('')"@));
    assert(!contains_spec("afterEach(() =>"@, "cy.clear()"@)) by {
        assert forall|i: int| 0 <= i && i + 10 <= 15 implies #[trigger] "afterEach(() =>"@.subrange(i, i + 10) != "cy.clear()"@ by {
            assert("afterEach(() =>"@.subrange(i, i + 10)[0] != "cy.clear()"@[0]);
        }
    }
    lemma_replace_no_match("afterEach(() =>"@, "cy.clear()"@, ".fill('')"@);
    lemma_rule_step(s, rs, 16, "afterEach(() =>"@, "afterEach(() =>"@);
    assert(rs[17] == (".clear()"@, ".fill('')"@));
    lemma_absent_by_first_char("afterEach(() =>"@, ".clear()"@);
    lemma_replace_no_match("afterEach(() =>"@, ".clear()"@, ".fill('')"@);
    lemma_rule_step(s, rs, 17, "afterEach(() =>"@, "afterEach(() =>"@);
    assert(rs[18] == ("cy.should('be.visible')"@, "expect(locator).toBeVisible()"@));
    lemma_absent_by_length("afterEach(() =>"@, "cy.should('be.visible')"@);
    lemma_replace_no_match("afterEach(() =>"@, "cy.should('be.visible')"@, "expect(locator).toBeVisible()"@);
    lemma_rule_step(s, rs, 18, "afterEach(() =>"@, "afterEach(() =>"@);
    assert(rs[19] == (".should('be.visible')"@, "expect(locator).toBeVisible()"@));
    lemma_absent_by_length("afterEach(() =>"@, ".should('be.visible')"@);
    lemma_replace_no_match("afterEach(() =>"@, ".should('be.visible')"@, "expect(locator).toBeVisible()"@);
    lemma_rule_step(s, rs, 19, "afterEach(() =>"@, "afterEach(() =>"@);
    assert(rs[20] == ("cy.should('not.be.visible')"@, "expect(locator).not.toBeVisible()"@));
    lemma_absent_by_length("afterEach(() =>"@, "cy.should('not.be.visible')"@);
    lemma_replace_no_match("afterEach(() =>"@, "cy.should('not.be.visible')"@, "expect(locator).not.toBeVisible()"@);
    lemma_rule_step(s, rs, 20, "afterEach(() =>"@, "afterEach(() =>"@);
    assert(rs[21] == ("cy.should('have.text',"@, "expect(locator).toHaveText("@));
    lemma_absent_by_length("afterEach(() =>"@, "cy.should('have.text',"@);
    lemma_replace_no_match("afterEach(() =>"@, "cy.should('have.text',"@, "expect(locator).toHaveText("@);
    lemma_rule_step(s, rs, 21, "afterEach(() =>"@, "afterEach(() =>"@);
    assert(rs[22] == ("cy.should('have.value',"@, "expect(locator).toHaveValue("@));
    lemma_absent_by_length("afterEach(() =>"@, "cy.should('have.value',"@);
    lemma_replace_no_match("afterEach(() =>"@, "cy.should('have.value',"@, "expect(locator).toHaveValue("@);
    lemma_rule_step(s, rs, 22, "afterEach(() =>"@, "afterEach(() =>"@);
    assert(rs[23] == ("cy.should('have.class',"@, "expect(locator).toHaveClass("@));
    lemma_absent_by_length("afterEach(() =>"@, "cy.should('have.class',"@);
    lemma_replace_no_match("afterEach(() =>"@, "cy.should('have.class',"@, "expect(locator).toHaveClass("@);
    lemma_rule_step(s, rs, 23, "afterEach(() =>"@, "afterEach(() =>"@);
    assert(rs[24] == ("cy.should('be.enabled')"@, "expect(locator).toBeEnabled()"@));
    lemma_absent_by_length("afterEach(() =>"@, "cy.should('be.enabled')"@);
    lemma_replace_no_match("afterEach(() =>"@, "cy.should('be.enabled')"@, "expect(locator).toBeEnabled()"@);
    lemma_rule_step(s, rs, 24, "afterEach(() =>"@, "afterEach(() =>"@);
    assert(rs[25] == ("cy.should('be.disabled')"@, "expect(locator).toBeDisabled()"@));
    lemma_absent_by_length("afterEach(() =>"@, "cy.should('be.disabled')"@);
    lemma_replace_no_match("afterEach(() =>"@, "cy.should('be.disabled')"@, "expect(locator).toBeDisabled()"@);
    lemma_rule_step(s, rs, 25, "afterEach(() =>"@, "afterEach(() =>"@);
    assert(rs[26] == ("cy.should('exist')"@, "// TurboSheet auto-waits for element existence"@));
    lemma_absent_by_length("afterEach(() =>"@, "cy.should('exist')"@);
    lemma_replace_no_match("afterEach(() =>"@, "cy.should('exist')"@, "// TurboSheet auto-waits for element existence"@);
    lemma_rule_step(s, rs, 26, "afterEach(() =>"@, "afterEach(() =>"@);
    assert(rs[27] == ("cy.intercept('GET',"@, "await page.route('**"@));
    lemma_absent_by_length("afterEach(() =>"@, "cy.intercept('GET',"@);
    lemma_replace_no_match("afterEach(() =>"@, "cy.intercept('GET',"@, "await page.route('**"@);
    lemma_rule_step(s, rs, 27, "afterEach(() =>"@, "afterEach(() =>"@);
    assert(rs[28] == ("cy.intercept('POST',"@, "await page.route('**"@));
    lemma_absent_by_length("afterEach(() =>"@, "cy.intercept('POST',"@);
    lemma_replace_no_match("afterEach(() =>"@, "cy.intercept('POST',"@, "await page.route('**"@);
    lemma_rule_step(s, rs, 28, "afterEach(() =>"@, "afterEach(() =>"@);
    assert(rs[29] == ("cy.intercept('PUT',"@, "await page.route('**"@));
    lemma_absent_by_length("afterEach(() =>"@, "cy.intercept('PUT',"@);
    lemma_replace_no_match("afterEach(() =>"@, "cy.intercept('PUT',"@, "await page.route('**"@);
    lemma_rule_step(s, rs, 29, "afterEach(() =>"@, "afterEach(() =>"@);
    assert(rs[30] == ("cy.intercept('DELETE',"@, "await page.route('**"@));
    lemma_absent_by_length("afterEach(() =>"@, "cy.intercept('DELETE',"@);
    lemma_replace_no_match("afterEach(() =>"@, "cy.intercept('DELETE',"@, "await page.route('**"@);
    lemma_rule_step(s, rs, 30, "afterEach(() =>"@, "afterEach(() =>"@);
    assert(rs[31] == ("(req, res) => {"@, "async (route) => {\n  // TODO: Replace body with route.fulfill() or route.continue()"@));
    assert(!contains_spec("afterEach(() =>"@, "(req, res) => {"@)) by {
        assert forall|i: int| 0 <= i && i + 15 <= 15 implies #[trigger] "afterEach(() =>"@.subrange(i, i + 15) != "(req, res) => {"@ by {
            assert("afterEach(() =>"@.subrange(i, i + 15)[0] != "(req, res) => {"@[0]);
        }
    }
    lemma_replace_no_match("afterEach(() =>"@, "(req, res) => {"@, "async (route) => {\n  // TODO: Replace body with route.fulfill() or route.continue()"@);
    lemma_rule_step(s, rs, 31, "afterEach(() =>"@, "afterEach(() =>"@);
    assert(rs[32] == ("before(() =>"@, "test.beforeAll(async () =>"@));
    lemma_absent_by_first_char("afterEach(() =>"@, "before(() =>"@);
    lemma_replace_no_match("afterEach(() =>"@, "before(() =>"@, "test.beforeAll(async () =>"@);
    lemma_rule_step(s, rs, 32, "afterEach(() =>"@, "afterEach(() =>"@);
    assert(rs[33] == ("after(() =>"@, "test.afterAll(async () =>"@));
    assert(!contains_spec("afterEach(() =>"@, "after(() =>"@)) by {
        assert forall|i: int| 0 <= i && i + 11 <= 15 implies #[trigger] "afterEach(() =>"@.subrange(i, i + 11) != "after(() =>"@ by {
            if i == 0 {
                assert("afterEach(() =>"@.subrange(i, i + 11)[5] != "after(() =>"@[5]);
            } else {
                assert("afterEach(() =>"@.subrange(i, i + 11)[0] != "after(() =>"@[0]);
            }
        }
    }
    lemma_replace_no_match("afterEach(() =>"@, "after(() =>"@, "test.afterAll(async () =>"@);
    lemma_rule_step(s, rs, 33, "afterEach(() =>"@, "afterEach(() =>"@);
    assert(rs[34] == ("beforeEach(() =>"@, "test.beforeEach(async () =>"@));
    lemma_absent_by_length("afterEach(() =>"@, "beforeEach(() =>"@);
    lemma_replace_no_match("afterEach(() =>"@, "beforeEach(() =>"@, "test.beforeEach(async () =>"@);
    lemma_rule_step(s, rs, 34, "afterEach(() =>"@, "afterEach(() =>"@);
    assert(rs[35] == ("afterEach(() =>"@, "test.afterEach(async () =>"@));
    lemma_replace_whole("afterEach(() =>"@, "test.afterEach(async () =>"@);
    lemma_rule_step(s, rs, 35, "afterEach(() =>"@, "test.afterEach(async () =>"@);
    assert(rs[36] == ("describe('"@, "test.describe('"@));
    lemma_absent_by_first_char("test.afterEach(async () =>"@, "describe('"@);
    lemma_replace_no_match("test.afterEach(async () =>"@, "describe('"@, "test.describe('"@);
    lemma_rule_step(s, rs, 36, "test.afterEach(async () =>"@, "test.afterEach(async () =>"@);
    assert(rs[37] == ("it('"@, "test('"@));
    lemma_absent_by_first_char("test.afterEach(async () =>"@, "it('"@);
    lemma_replace_no_match("test.afterEach(async () =>"@, "it('"@, "test('"@);
    lemma_rule_step(s, rs, 37, "test.afterEach(async () =>"@, "test.afterEach(async () =>"@);
    assert(rs[38] == ("it.only('"@, "test.only('"@));
    lemma_absent_by_first_char("test.afterEach(async () =>"@, "it.only('"@);
    lemma_replace_no_match("test.afterEach(async () =>"@, "it.only('"@, "test.only('"@);
    lemma_rule_step(s, rs, 38, "test.afterEach(async () =>"@, "test.afterEach(async () =>"@);
    assert(rs[39] == ("it.skip('"@, "test.skip('"@));
    lemma_absent_by_first_char("test.afterEach(async () =>"@, "it.skip('"@);
    lemma_replace_no_match("test.afterEach(async () =>"@, "it.skip('"@, "test.skip('"@);
    lemma_rule_step(s, rs, 39, "test.afterEach(async () =>"@, "test.afterEach(async () =>"@);
    assert(rs[40] == ("xit('"@, "test.skip('"@));
    lemma_absent_by_first_char("test.afterEach(async () =>"@, "xit('"@);
    lemma_replace_no_match("test.afterEach(async () =>"@, "xit('"@, "test.skip('"@);
    lemma_rule_step(s, rs, 40, "test.afterEach(async () =>"@, "test.afterEach(async () =>"@);
    assert(rs[41] == ("describe.only('"@, "test.describe.only('"@));
    lemma_absent_by_first_char("test.afterEach(async () =>"@, "describe.only('"@);
    lemma_replace_no_match("test.afterEach(async () =>"@, "describe.only('"@, "test.describe.only('"@);
    lemma_rule_step(s, rs, 41, "test.afterEach(async () =>"@, "test.afterEach(async () =>"@);
    assert(rs[42] == ("describe.skip('"@, "test.describe.skip('"@));
    lemma_absent_by_first_char("test.afterEach(async () =>"@, "describe.skip('"@);
    lemma_replace_no_match("test.afterEach(async () =>"@, "describe.skip('"@, "test.describe.skip('"@);
    lemma_rule_step(s, rs, 42, "test.afterEach(async () =>"@, "test.afterEach(async () =>"@);
    assert(rs.take(43) =~= rs);
}

/// Each Cypress hook becomes the TurboSheet hook that runs as often:
/// `before` and `after` once around the whole suite (`test.beforeAll`,
/// `test.afterAll`), `beforeEach` and `afterEach` around every test.
pub proof fn law_cypress_hooks_keep_their_scope()
    ensures
        apply_rules("before(() =>"@, cypress_file_rules()) == "test.beforeAll(async () =>"@,
        apply_rules("after(() =>"@, cypress_file_rules()) == "test.afterAll(async () =>"@,
        apply_rules("beforeEach(() =>"@, cypress_file_rules()) == "test.beforeEach(async () =>"@,
        apply_rules("afterEach(() =>"@, cypress_file_rules()) == "test.afterEach(async () =>"@,
{
    lemma_hook_before();
    lemma_hook_after();
    lemma_hook_before_each();
    lemma_hook_after_each();
}

} // verus!
