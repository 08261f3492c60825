use vstd::prelude::*;

verus! {

/// How an API of another framework maps to TurboSheet, and whether the
/// migration rewrites it automatically.
pub struct ApiMapping {
    pub original: String,
    pub converted: String,
    pub automated: bool,
}

/// Something left for a person to do after a migration: the file, what
/// to do, and how serious it is (`info`, `warning` or `critical`).
pub struct ManualTodo {
    pub file: String,
    pub description: String,
    pub severity: String,
}

/// The text of a mapping table.
pub open spec fn mappings_view(v: Seq<ApiMapping>) -> Seq<(Seq<char>, Seq<char>, bool)> {
    v.map_values(|m: ApiMapping| (m.original@, m.converted@, m.automated))
}

/// The text of a table of mappings written as literals.
pub open spec fn table_view(v: Seq<(&str, &str, bool)>) -> Seq<(Seq<char>, Seq<char>, bool)> {
    v.map_values(|m: (&str, &str, bool)| (m.0@, m.1@, m.2))
}

/// The text of a list of to-dos.
pub open spec fn todos_view(v: Seq<ManualTodo>) -> Seq<(Seq<char>, Seq<char>, Seq<char>)> {
    v.map_values(|t: ManualTodo| (t.file@, t.description@, t.severity@))
}

/// The to-dos for `file` with the given descriptions and severities.
pub open spec fn todos_for(file: Seq<char>, items: Seq<(&str, &str)>) -> Seq<(Seq<char>, Seq<char>, Seq<char>)> {
    items.map_values(|t: (&str, &str)| (file, t.0@, t.1@))
}

/// How many mappings of a table are automated.
pub open spec fn automated_count_spec(v: Seq<(Seq<char>, Seq<char>, bool)>) -> nat
    decreases v.len(),
{
    if v.len() == 0 {
        0
    } else {
        automated_count_spec(v.drop_last()) + if v.last().2 { 1nat } else { 0nat }
    }
}

fn mappings_of(table: &Vec<(&str, &str, bool)>) -> (r: Vec<ApiMapping>)
    ensures
        mappings_view(r@) == table_view(table@),
{
    let mut r: Vec<ApiMapping> = Vec::new();
    let mut i: usize = 0;
    while i < table.len()
        invariant
            i <= table@.len(),
            mappings_view(r@) == table_view(table@.take(i as int)),
        decreases table.len() - i,
    {
        let (o, c, a) = table[i];
        let ghost before = r@;
        r.push(ApiMapping { original: String::from_str(o), converted: String::from_str(c), automated: a });
        assert(mappings_view(r@) =~= mappings_view(before).push((o@, c@, a)));
        assert(table@.take(i + 1) =~= table@.take(i as int).push(table@[i as int]));
        assert(table_view(table@.take(i + 1)) =~= table_view(table@.take(i as int)).push((o@, c@, a)));
        i = i + 1;
    }
    assert(table@.take(table@.len() as int) =~= table@);
    r
}

fn todos_of(file: &str, items: &Vec<(&str, &str)>) -> (r: Vec<ManualTodo>)
    ensures
        todos_view(r@) == todos_for(file@, items@),
{
    let mut r: Vec<ManualTodo> = Vec::new();
    let mut i: usize = 0;
    while i < items.len()
        invariant
            i <= items@.len(),
            todos_view(r@) == todos_for(file@, items@.take(i as int)),
        decreases items.len() - i,
    {
        let (d, s) = items[i];
        let ghost before = r@;
        r.push(ManualTodo { file: String::from_str(file), description: String::from_str(d), severity: String::from_str(s) });
        assert(todos_view(r@) =~= todos_view(before).push((file@, d@, s@)));
        assert(items@.take(i + 1) =~= items@.take(i as int).push(items@[i as int]));
        assert(todos_for(file@, items@.take(i + 1)) =~= todos_for(file@, items@.take(i as int)).push((file@, d@, s@)));
        i = i + 1;
    }
    assert(items@.take(items@.len() as int) =~= items@);
    r
}

/// How many of the mappings are automated.
pub fn automated_count(mappings: &Vec<ApiMapping>) -> (n: usize)
    ensures
        n == automated_count_spec(mappings_view(mappings@)),
{
    let mut n: usize = 0;
    let mut i: usize = 0;
    while i < mappings.len()
        invariant
            i <= mappings@.len(),
            n == automated_count_spec(mappings_view(mappings@.take(i as int))),
            n <= i,
        decreases mappings.len() - i,
    {
        assert(mappings_view(mappings@.take(i + 1)).drop_last() =~= mappings_view(mappings@.take(i as int)));
        if mappings[i].automated {
            n = n + 1;
        }
        i = i + 1;
    }
    assert(mappings@.take(mappings@.len() as int) =~= mappings@);
    n
}

/// The Cypress APIs and what each becomes, in the order they are reported.
pub open spec fn cypress_api_mappings() -> Seq<(Seq<char>, Seq<char>, bool)> {
    seq![
        ("cy.visit()"@, "page.goto()"@, true),
        ("cy.get()"@, "page.locator()"@, true),
        ("cy.contains()"@, "page.getByText()"@, true),
        ("cy.click()"@, "await locator.click()"@, true),
        ("cy.type()"@, "await locator.fill()"@, true),
        ("cy.should('be.visible')"@, "expect(locator).toBeVisible()"@, true),
        ("cy.should('have.text')"@, "expect(locator).toHaveText()"@, true),
        ("cy.intercept()"@, "page.route()"@, true),
        ("cy.wait()"@, "// Use expect.poll() or remove - TurboSheet auto-waits"@, false),
        ("cy.stub()"@, "// Use page.route() with fulfill()"@, false),
        ("cy.spy()"@, "// Use page.route() with fulfill()"@, false),
        ("cy.viewport()"@, "test.use({ viewport: ... })"@, true),
        ("before()"@, "test.beforeAll()"@, true),
        ("after()"@, "test.afterAll()"@, true),
        ("beforeEach()"@, "test.beforeEach()"@, true),
        ("afterEach()"@, "test.afterEach()"@, true),
    ]
}

/// The to-dos that a Cypress migration of `file` leaves.
pub open spec fn cypress_todos_spec(file: Seq<char>) -> Seq<(Seq<char>, Seq<char>, Seq<char>)> {
    seq![
        (file, "Review all cy.wait() calls - most can be removed with TurboSheet's auto-waiting"@, "warning"@),
        (file, "Convert cy.stub() and cy.spy() to page.route() with mock handlers"@, "warning"@),
        (file, "Review cy.intercept() - ensure route handlers handle all cases"@, "info"@),
    ]
}

/// The mapping table of a Cypress migration (see `cypress_api_mappings`).
pub fn cypress_mappings() -> (r: Vec<ApiMapping>)
    ensures
        mappings_view(r@) == cypress_api_mappings(),
{
    let table: Vec<(&str, &str, bool)> = vec![
        ("cy.visit()", "page.goto()", true),
        ("cy.get()", "page.locator()", true),
        ("cy.contains()", "page.getByText()", true),
        ("cy.click()", "await locator.click()", true),
        ("cy.type()", "await locator.fill()", true),
        ("cy.should('be.visible')", "expect(locator).toBeVisible()", true),
        ("cy.should('have.text')", "expect(locator).toHaveText()", true),
        ("cy.intercept()", "page.route()", true),
        ("cy.wait()", "// Use expect.poll() or remove - TurboSheet auto-waits", false),
        ("cy.stub()", "// Use page.route() with fulfill()", false),
        ("cy.spy()", "// Use page.route() with fulfill()", false),
        ("cy.viewport()", "test.use({ viewport: ... })", true),
        ("before()", "test.beforeAll()", true),
        ("after()", "test.afterAll()", true),
        ("beforeEach()", "test.beforeEach()", true),
        ("afterEach()", "test.afterEach()", true),
    ];
    assert(table_view(table@) =~= cypress_api_mappings());
    mappings_of(&table)
}

/// The to-dos of a Cypress migration of `source_path` (see `cypress_todos_spec`).
pub fn cypress_todos(source_path: &str) -> (r: Vec<ManualTodo>)
    ensures
        todos_view(r@) == cypress_todos_spec(source_path@),
{
    let items: Vec<(&str, &str)> = vec![
        ("Review all cy.wait() calls - most can be removed with TurboSheet's auto-waiting", "warning"),
        ("Convert cy.stub() and cy.spy() to page.route() with mock handlers", "warning"),
        ("Review cy.intercept() - ensure route handlers handle all cases", "info"),
    ];
    assert(todos_for(source_path@, items@) =~= cypress_todos_spec(source_path@));
    todos_of(source_path, &items)
}

/// The Playwright APIs and what each becomes, in the order they are reported.
pub open spec fn playwright_api_mappings() -> Seq<(Seq<char>, Seq<char>, bool)> {
    seq![
        ("page.locator()"@, "page.locator()"@, true),
        ("page.waitForSelector()"@, "await page.locator().waitFor() / native auto-wait"@, true),
        ("page.$eval()"@, "page.evaluate()"@, true),
        ("test.beforeAll()"@, "test.beforeAll()"@, true),
        ("test.afterAll()"@, "test.afterAll()"@, true),
        ("test.beforeEach()"@, "test.beforeEach()"@, true),
        ("test.afterEach()"@, "test.afterEach()"@, true),
        ("test.extend()"@, "test.extend()"@, true),
        ("page.route()"@, "page.route()"@, true),
        ("expect(locator).toBeVisible()"@, "expect(locator).toBeVisible()"@, true),
        ("page.screenshot()"@, "page.screenshot()"@, true),
        ("browserType.launch()"@, "launch()"@, true),
        ("custom reporters"@, "registerReporter() / reporter plugins"@, false),
        ("webServer config"@, "use globalSetup in tsheet.config.ts"@, false),
        ("page.addInitScript()"@, "// Use context.addInitScript() or test.use()"@, false),
        ("page.addStyleTag()"@, "// Not yet supported"@, false),
        ("page.addScriptTag()"@, "// Not yet supported"@, false),
        ("page.pause()"@, "// Not yet supported - use debug mode"@, false),
    ]
}

/// The to-dos that a Playwright migration of `file` leaves.
pub open spec fn playwright_todos_spec(file: Seq<char>) -> Seq<(Seq<char>, Seq<char>, Seq<char>)> {
    seq![
        (file, "Verify all page.waitForSelector() calls are replaced with auto-waiting"@, "warning"@),
        (file, "Check for any custom Playwright extensions or plugins"@, "info"@),
    ]
}

/// The mapping table of a Playwright migration (see `playwright_api_mappings`).
pub fn playwright_mappings() -> (r: Vec<ApiMapping>)
    ensures
        mappings_view(r@) == playwright_api_mappings(),
{
    let table: Vec<(&str, &str, bool)> = vec![
        ("page.locator()", "page.locator()", true),
        ("page.waitForSelector()", "await page.locator().waitFor() / native auto-wait", true),
        ("page.$eval()", "page.evaluate()", true),
        ("test.beforeAll()", "test.beforeAll()", true),
        ("test.afterAll()", "test.afterAll()", true),
        ("test.beforeEach()", "test.beforeEach()", true),
        ("test.afterEach()", "test.afterEach()", true),
        ("test.extend()", "test.extend()", true),
        ("page.route()", "page.route()", true),
        ("expect(locator).toBeVisible()", "expect(locator).toBeVisible()", true),
        ("page.screenshot()", "page.screenshot()", true),
        ("browserType.launch()", "launch()", true),
        ("custom reporters", "registerReporter() / reporter plugins", false),
        ("webServer config", "use globalSetup in tsheet.config.ts", false),
        ("page.addInitScript()", "// Use context.addInitScript() or test.use()", false),
        ("page.addStyleTag()", "// Not yet supported", false),
        ("page.addScriptTag()", "// Not yet supported", false),
        ("page.pause()", "// Not yet supported - use debug mode", false),
    ];
    assert(table_view(table@) =~= playwright_api_mappings());
    mappings_of(&table)
}

/// The to-dos of a Playwright migration of `source_path` (see `playwright_todos_spec`).
pub fn playwright_todos(source_path: &str) -> (r: Vec<ManualTodo>)
    ensures
        todos_view(r@) == playwright_todos_spec(source_path@),
{
    let items: Vec<(&str, &str)> = vec![
        ("Verify all page.waitForSelector() calls are replaced with auto-waiting", "warning"),
        ("Check for any custom Playwright extensions or plugins", "info"),
    ];
    assert(todos_for(source_path@, items@) =~= playwright_todos_spec(source_path@));
    todos_of(source_path, &items)
}

/// The Puppeteer APIs and what each becomes, in the order they are reported.
pub open spec fn puppeteer_api_mappings() -> Seq<(Seq<char>, Seq<char>, bool)> {
    seq![
        ("puppeteer.launch()"@, "launch()"@, true),
        ("browser.newPage()"@, "const context = await browser.newContext(); const page = await context.newPage()"@, true),
        ("page.goto()"@, "page.goto()"@, true),
        ("page.$()"@, "page.locator()"@, true),
        ("page.$$()"@, "page.locator().all()"@, true),
        ("page.waitForSelector()"@, "// Auto-waits - removed"@, true),
        ("page.waitForNavigation()"@, "// Auto-waits - removed"@, true),
        ("page.click()"@, "page.click()"@, true),
        ("page.type()"@, "page.fill()"@, true),
        ("page.evaluate()"@, "page.evaluate()"@, true),
        ("page.screenshot()"@, "page.screenshot()"@, true),
        ("page.emulate()"@, "test.use({ ...devices['...'] })"@, false),
        ("page.setGeolocation()"@, "context.setGeolocation()"@, true),
        ("page.setContent()"@, "// Use page.goto() with data URL or mount component"@, false),
        ("page.pdf()"@, "// Not yet supported"@, false),
        ("page.emulateNetworkConditions()"@, "// Use test.use() context options"@, false),
        ("page.setExtraHTTPHeaders()"@, "// Use route interception with page.route()"@, false),
        ("page.screencast()"@, "// Not yet supported in TurboSheet"@, false),
        ("page.setCookie()"@, "context.addCookies()"@, false),
        ("page.deleteCookie()"@, "context.clearCookies()"@, false),
        ("page.cookies()"@, "context.cookies()"@, false),
        ("page.workers()"@, "// Not yet supported"@, false),
        ("page.frames()"@, "// Use iframe locator instead"@, false),
    ]
}

/// The to-dos that a Puppeteer migration of `file` leaves.
pub open spec fn puppeteer_todos_spec(file: Seq<char>) -> Seq<(Seq<char>, Seq<char>, Seq<char>)> {
    seq![
        (file, "Review page.setContent() calls - may need refactoring to use page.goto() with data URLs"@, "warning"@),
        (file, "Convert page.emulate() to test.use() with device descriptors"@, "info"@),
        (file, "page.pdf() is not yet supported in TurboSheet"@, "critical"@),
    ]
}

/// The mapping table of a Puppeteer migration (see `puppeteer_api_mappings`).
pub fn puppeteer_mappings() -> (r: Vec<ApiMapping>)
    ensures
        mappings_view(r@) == puppeteer_api_mappings(),
{
    let table: Vec<(&str, &str, bool)> = vec![
        ("puppeteer.launch()", "launch()", true),
        ("browser.newPage()", "const context = await browser.newContext(); const page = await context.newPage()", true),
        ("page.goto()", "page.goto()", true),
        ("page.$()", "page.locator()", true),
        ("page.$$()", "page.locator().all()", true),
        ("page.waitForSelector()", "// Auto-waits - removed", true),
        ("page.waitForNavigation()", "// Auto-waits - removed", true),
        ("page.click()", "page.click()", true),
        ("page.type()", "page.fill()", true),
        ("page.evaluate()", "page.evaluate()", true),
        ("page.screenshot()", "page.screenshot()", true),
        ("page.emulate()", "test.use({ ...devices['...'] })", false),
        ("page.setGeolocation()", "context.setGeolocation()", true),
        ("page.setContent()", "// Use page.goto() with data URL or mount component", false),
        ("page.pdf()", "// Not yet supported", false),
        ("page.emulateNetworkConditions()", "// Use test.use() context options", false),
        ("page.setExtraHTTPHeaders()", "// Use route interception with page.route()", false),
        ("page.screencast()", "// Not yet supported in TurboSheet", false),
        ("page.setCookie()", "context.addCookies()", false),
        ("page.deleteCookie()", "context.clearCookies()", false),
        ("page.cookies()", "context.cookies()", false),
        ("page.workers()", "// Not yet supported", false),
        ("page.frames()", "// Use iframe locator instead", false),
    ];
    assert(table_view(table@) =~= puppeteer_api_mappings());
    mappings_of(&table)
}

/// The to-dos of a Puppeteer migration of `source_path` (see `puppeteer_todos_spec`).
pub fn puppeteer_todos(source_path: &str) -> (r: Vec<ManualTodo>)
    ensures
        todos_view(r@) == puppeteer_todos_spec(source_path@),
{
    let items: Vec<(&str, &str)> = vec![
        ("Review page.setContent() calls - may need refactoring to use page.goto() with data URLs", "warning"),
        ("Convert page.emulate() to test.use() with device descriptors", "info"),
        ("page.pdf() is not yet supported in TurboSheet", "critical"),
    ];
    assert(todos_for(source_path@, items@) =~= puppeteer_todos_spec(source_path@));
    todos_of(source_path, &items)
}

} // verus!
