use vstd::prelude::*;
use crate::json::{json_string, json_string_of};
use crate::reporters::types::{
    AggregatedTestResult, TestCaseResult, TestSuiteResult, TestCaseView, TestSuiteView, cases_view, suites_view,
};
use crate::text::{
    lemma_replace_char_members, replace_spec, replace_str, push_str, string_from_chars, str_eq, decimal_spec, push_decimal, seconds2_spec,
    push_seconds2, strings_view,
};

verus! {

/// Writes a run as a self-contained HTML page.
pub struct HtmlReporter;

/// Text made safe for HTML: `&`, `<`, `>` and `"` replaced by their
/// entities, in that order.
pub open spec fn escape_html_spec(s: Seq<char>) -> Seq<char> {
    replace_spec(replace_spec(replace_spec(replace_spec(s, "&"@, "&amp;"@), "<"@, "&lt;"@), ">"@, "&gt;"@), "\""@, "&quot;"@)
}

/// Escapes `s` as `escape_html_spec` describes.
pub fn escape_html(s: &str) -> (r: String)
    ensures
        r@ == escape_html_spec(s@),
{
    let a = replace_str(s, "&", "&amp;");
    let b = replace_str(a.as_str(), "<", "&lt;");
    let c = replace_str(b.as_str(), ">", "&gt;");
    replace_str(c.as_str(), "\"", "&quot;")
}

/// The opening of the page, up to its title.
pub const HTML_HEAD: &'static str = "<!DOCTYPE html>\n<html lang=\"en\">\n<head>\n  <meta charset=\"UTF-8\">\n  <meta name=\"viewport\" content=\"width=device-width, initial-scale=1.0\">\n  <title>TurboSheet Test Results</title>\n";

/// The style sheet of the report.
pub const PAGE_STYLES: &'static str = "  <style>\n    * { box-sizing: border-box; margin: 0; padding: 0; }\n    body { font-family: -apple-system, BlinkMacSystemFont, 'Segoe UI', Roboto, sans-serif; padding: 20px; background: #f5f5f5; }\n    .header { background: linear-gradient(135deg, #667eea 0%, #764ba2 100%); color: white; padding: 30px; border-radius: 8px; margin-bottom: 20px; }\n    .header h1 { font-size: 28px; margin-bottom: 10px; }\n    .summary { display: grid; grid-template-columns: repeat(auto-fit, minmax(150px, 1fr)); gap: 15px; margin-bottom: 30px; }\n    .stat { background: white; padding: 20px; border-radius: 8px; box-shadow: 0 2px 4px rgba(0,0,0,0.1); text-align: center; }\n    .stat-value { font-size: 32px; font-weight: bold; }\n    .stat-label { color: #666; font-size: 14px; margin-top: 5px; }\n    .passed { color: #22c55e; } .failed { color: #ef4444; } .skipped { color: #f59e0b; }\n    .filter-bar { background: white; padding: 15px; border-radius: 8px; margin-bottom: 20px; box-shadow: 0 2px 4px rgba(0,0,0,0.1); display: flex; gap: 10px; align-items: center; }\n    .filter-btn { padding: 8px 16px; border: 1px solid #e2e8f0; background: white; border-radius: 6px; cursor: pointer; font-size: 14px; transition: all 0.2s; }\n    .filter-btn:hover { background: #f8fafc; }\n    .filter-btn.active { background: #667eea; color: white; border-color: #667eea; }\n    .suite { background: white; border-radius: 8px; margin-bottom: 20px; box-shadow: 0 2px 4px rgba(0,0,0,0.1); overflow: hidden; }\n    .suite-header { background: #f8fafc; padding: 15px 20px; border-bottom: 1px solid #e2e8f0; font-weight: 600; display: flex; justify-content: space-between; align-items: center; }\n    .suite-stats { font-size: 13px; color: #6b7280; font-weight: normal; }\n    .test { padding: 12px 20px; border-bottom: 1px solid #f1f5f9; display: flex; align-items: center; gap: 10px; cursor: pointer; transition: background 0.15s; }\n    .test:hover { background: #f8fafc; }\n    .test:last-child { border-bottom: none; }\n    .test-icon { width: 20px; height: 20px; border-radius: 50%; display: flex; align-items: center; justify-content: center; font-size: 12px; flex-shrink: 0; }\n    .test-icon.passed { background: #22c55e; color: white; } .test-icon.failed { background: #ef4444; color: white; } .test-icon.skipped { background: #f59e0b; color: white; }\n    .test-name { flex: 1; min-width: 0; }\n    .test-name-text { overflow: hidden; text-overflow: ellipsis; white-space: nowrap; }\n    .test-meta { display: flex; gap: 15px; align-items: center; flex-shrink: 0; }\n    .test-duration { color: #888; font-size: 13px; }\n    .test-screenshots { display: flex; gap: 5px; }\n    .screenshot-thumb { width: 40px; height: 30px; object-fit: cover; border-radius: 4px; cursor: pointer; border: 1px solid #e2e8f0; }\n    .screenshot-thumb:hover { border-color: #667eea; }\n    .error-message { background: #fef2f2; color: #991b1b; padding: 10px 15px; margin: 8px 20px; border-radius: 4px; font-family: monospace; font-size: 13px; white-space: pre-wrap; border-left: 3px solid #ef4444; }\n    .trace-link { color: #667eea; text-decoration: none; font-size: 13px; padding: 4px 8px; border-radius: 4px; transition: background 0.15s; cursor: pointer; }\n    .trace-link:hover { background: #f1f5f9; text-decoration: underline; }\n    .modal { display: none; position: fixed; top: 0; left: 0; width: 100%; height: 100%; background: rgba(0,0,0,0.8); z-index: 1000; justify-content: center; align-items: center; }\n    .modal.visible { display: flex; }\n    .modal-content { background: white; border-radius: 8px; max-width: 90%; max-height: 90%; overflow: auto; }\n    .modal-close { position: absolute; top: 20px; right: 20px; background: white; border: none; font-size: 24px; cursor: pointer; width: 40px; height: 40px; border-radius: 50%; box-shadow: 0 2px 8px rgba(0,0,0,0.2); }\n  </style>\n";

/// The style sheet of the trace viewer.
pub const TRACE_STYLES: &'static str = "  <style>\n    .trace-viewer { background: #0f0f1a; border-radius: 8px; margin-bottom: 20px; overflow: hidden; display: none; color: #e4e4e7; }\n    .trace-viewer.visible { display: flex; flex-direction: column; height: 500px; }\n    .trace-header { background: #1a1a2e; padding: 15px 20px; border-bottom: 1px solid #2d2d3d; display: flex; align-items: center; justify-content: space-between; }\n    .trace-header h3 { font-size: 18px; font-weight: 600; color: #667eea; }\n    .trace-header-info { font-size: 13px; color: #6b7280; }\n    .trace-close { background: none; border: none; color: #9ca3af; cursor: pointer; font-size: 20px; }\n    .trace-close:hover { color: #e4e4e7; }\n    .trace-main { display: flex; flex: 1; overflow: hidden; }\n    .trace-timeline { width: 350px; background: #1a1a2e; border-right: 1px solid #2d2d3d; overflow-y: auto; padding: 10px; }\n    .timeline-header { font-size: 12px; font-weight: 600; color: #6b7280; text-transform: uppercase; margin-bottom: 10px; padding: 0 5px; }\n    .event { padding: 8px 10px; border-radius: 6px; margin-bottom: 4px; cursor: pointer; transition: background 0.15s; }\n    .event:hover { background: #252540; }\n    .event.selected { background: #2d2d4a; border: 1px solid #667eea; }\n    .event-time { font-size: 11px; color: #6b7280; margin-bottom: 2px; }\n    .event-type { font-size: 13px; font-weight: 500; display: flex; align-items: center; gap: 6px; }\n    .event-icon { width: 16px; height: 16px; border-radius: 3px; display: flex; align-items: center; justify-content: center; font-size: 11px; }\n    .event-icon.action { background: #667eea; }\n    .event-icon.network { background: #22c55e; }\n    .event-icon.console { background: #f59e0b; }\n    .event-icon.snapshot { background: #ec4899; }\n    .event-selector { font-size: 11px; color: #9ca3af; margin-top: 2px; overflow: hidden; text-overflow: ellipsis; white-space: nowrap; }\n    .trace-detail { flex: 1; display: flex; flex-direction: column; overflow: hidden; }\n    .detail-header { background: #1a1a2e; padding: 15px 20px; border-bottom: 1px solid #2d2d3d; }\n    .detail-header h2 { font-size: 16px; font-weight: 600; margin-bottom: 5px; }\n    .detail-meta { font-size: 12px; color: #6b7280; }\n    .detail-body { flex: 1; overflow: auto; padding: 20px; }\n    .detail-section { background: #1a1a2e; border-radius: 8px; padding: 15px; margin-bottom: 15px; }\n    .detail-section h3 { font-size: 13px; font-weight: 600; color: #9ca3af; text-transform: uppercase; margin-bottom: 10px; }\n    .console-entry { font-family: monospace; font-size: 13px; padding: 5px 0; border-bottom: 1px solid #252540; }\n    .console-entry:last-child { border-bottom: none; }\n    .console-entry .level { display: inline-block; width: 50px; font-weight: 600; }\n    .console-entry .level.log { color: #e4e4e7; }\n    .console-entry .level.warn { color: #f59e0b; }\n    .console-entry .level.error { color: #ef4444; }\n    .console-entry .level.info { color: #667eea; }\n    .snapshot-preview { background: #252540; border-radius: 4px; padding: 10px; font-family: monospace; font-size: 12px; max-height: 200px; overflow: auto; white-space: pre-wrap; color: #a1a1aa; }\n    .network-row { display: flex; gap: 15px; padding: 8px 0; border-bottom: 1px solid #252540; font-size: 13px; }\n    .network-row:last-child { border-bottom: none; }\n    .network-method { font-weight: 600; min-width: 60px; }\n    .network-method.get { color: #22c55e; }\n    .network-method.post { color: #667eea; }\n    .network-method.put { color: #f59e0b; }\n    .network-method.delete { color: #ef4444; }\n    .network-url { flex: 1; overflow: hidden; text-overflow: ellipsis; white-space: nowrap; color: #e4e4e7; }\n    .network-status { min-width: 40px; text-align: right; }\n    .network-status.success { color: #22c55e; }\n    .network-status.redirect { color: #f59e0b; }\n    .network-status.error { color: #ef4444; }\n    .trace-stats { display: flex; gap: 20px; }\n    .trace-stat { display: flex; align-items: center; gap: 5px; font-size: 13px; }\n    .trace-stat-dot { width: 8px; height: 8px; border-radius: 50%; }\n    .trace-stat-dot.action { background: #667eea; }\n    .trace-stat-dot.network { background: #22c55e; }\n    .trace-stat-dot.console { background: #f59e0b; }\n    .trace-stat-dot.snapshot { background: #ec4899; }\n    .trace-empty { display: flex; flex-direction: column; align-items: center; justify-content: center; height: 100%; color: #6b7280; text-align: center; padding: 40px; }\n    .trace-empty-icon { font-size: 48px; margin-bottom: 15px; opacity: 0.5; }\n  </style>\n";

/// The end of the head and the start of the body.
pub const BODY_OPEN: &'static str = "</head>\n<body>\n";

/// The buttons that filter the tests by status.
pub const FILTER_BAR: &'static str = "  <div class=\"filter-bar\">\n    <span style=\"color: #6b7280; font-size: 14px;\">Filter:</span>\n    <button class=\"filter-btn active\" onclick=\"filterTests('all')\">All</button>\n    <button class=\"filter-btn\" onclick=\"filterTests('passed')\">Passed</button>\n    <button class=\"filter-btn\" onclick=\"filterTests('failed')\">Failed</button>\n    <button class=\"filter-btn\" onclick=\"filterTests('skipped')\">Skipped</button>\n  </div>\n";

/// The trace viewer panel, hidden until a trace is opened.
pub const TRACE_VIEWER: &'static str = "  <div class=\"trace-viewer\" id=\"traceViewer\">\n    <div class=\"trace-header\">\n      <h3>TurboTrace Viewer</h3>\n      <div class=\"trace-header-info\" id=\"traceHeaderInfo\"></div>\n      <button class=\"trace-close\" onclick=\"closeTraceViewer()\">&times;</button>\n    </div>\n    <div class=\"trace-main\">\n      <div class=\"trace-timeline\" id=\"traceTimeline\">\n        <div class=\"timeline-header\">Events</div>\n        <div id=\"traceEvents\"></div>\n      </div>\n      <div class=\"trace-detail\" id=\"traceDetail\">\n        <div class=\"trace-empty\">\n          <div class=\"trace-empty-icon\">&#128269;</div>\n          <p>Select an event to view details</p>\n        </div>\n      </div>\n    </div>\n  </div>\n";

/// The scripts that filter tests and show errors and screenshots.
pub const PAGE_SCRIPTS: &'static str = "  <script>\n    function filterTests(status) {      document.querySelectorAll('.filter-btn').forEach(function(btn) { btn.classList.remove('active'); });      event.target.classList.add('active');      document.querySelectorAll('.test').forEach(function(test) {        if (status === 'all' || test.dataset.status === status) {          test.style.display = '';        } else {          test.style.display = 'none';        }      });    }    function toggleError(testEl) {      var errorMsg = testEl.nextElementSibling;      if (errorMsg && errorMsg.classList.contains('error-message')) {        errorMsg.style.display = errorMsg.style.display === 'none' ? '' : 'none';      }    }    function openTraceViewer(testName) {      document.getElementById('traceViewer').classList.add('visible');      window.scrollTo(0, 0);    }    function closeTraceViewer() {      document.getElementById('traceViewer').classList.remove('visible');    }    function viewScreenshot(path) {      alert('Screenshot viewer: ' + path);    }  </script>\n";

/// The scripts of the trace viewer.
pub const TRACE_SCRIPTS: &'static str = "  <script>\n\n        let selectedTraceIndex = null;\n        function formatTime(ts) {\n          const d = new Date(ts);\n          return d.toLocaleTimeString() + '.' + String(d.getMilliseconds()).padStart(3, '0');\n        }\n        function getEventIcon(type) {\n          switch(type) {\n            case 'Action': return 'A';\n            case 'Network': return 'N';\n            case 'Console': return 'C';\n            case 'Snapshot': return 'S';\n            default: return '?';\n          }\n        }\n        function renderTraceStats(traceIndex) {\n          const data = window.traceData[traceIndex];\n          if (!data || !data.events) return;\n          const stats = document.getElementById('traceHeaderInfo');\n          const m = data.metadata || {};\n          stats.innerHTML = '<div class=\"trace-stats\">' +\n            \"<div class='trace-stat'><div class='trace-stat-dot action'></div>\" + (m.action_count || 0) + \" actions</div>\" +\n            \"<div class='trace-stat'><div class='trace-stat-dot network'></div>\" + (m.network_count || 0) + \" network</div>\" +\n            \"<div class='trace-stat'><div class='trace-stat-dot console'></div>\" + (m.console_count || 0) + \" console</div>\" +\n            '</div>';\n        }\n        function renderTraceEvents(traceIndex) {\n          const data = window.traceData[traceIndex];\n          if (!data || !data.events) return;\n          const container = document.getElementById('traceEvents');\n          container.innerHTML = data.events.map(function(e, i) {\n            const iconClass = e.type.toLowerCase();\n            const icon = getEventIcon(e.type);\n            let meta = '';\n            let selector = '';\n            if (e.type === 'Action') {\n              meta = e.action_type + (e.duration_ms ? ' (' + e.duration_ms + 'ms)' : '');\n              selector = e.selector || '';\n            } else if (e.type === 'Network') {\n              meta = e.method + ' ' + (e.status || '-');\n              selector = e.url || '';\n            } else if (e.type === 'Console') {\n              meta = e.level || '';\n              selector = (e.message || '').substring(0, 50);\n            } else if (e.type === 'Snapshot') {\n              meta = e.snapshot_type || '';\n              selector = (e.accessibility_tree || '').substring(0, 50);\n            }\n            return \"<div class='event' onclick='selectTraceEvent(\" + traceIndex + \", \" + i + \")'>\" +\n              \"<div class='event-time'>\" + formatTime(e.timestamp) + \"</div>\" +\n              \"<div class='event-type'>\" +\n                \"<div class='event-icon \" + iconClass + \"'>\" + icon + \"</div>\" +\n                meta +\n              \"</div>\" +\n              (selector ? \"<div class='event-selector'>\" + selector + \"</div>\" : \"\") +\n              \"</div>\";\n          }).join('');\n        }\n        function selectTraceEvent(traceIndex, eventIndex) {\n          selectedTraceIndex = traceIndex;\n          const data = window.traceData[traceIndex];\n          if (!data || !data.events) return;\n          const event = data.events[eventIndex];\n          const detail = document.getElementById('traceDetail');\n          let html = \"<div class='detail-header'><h2>\" + event.type + \" Event</h2><div class='detail-meta'>\" + formatTime(event.timestamp) + \"</div></div><div class='detail-body'>\";\n          if (event.type === 'Action') {\n            html += \"<div class='detail-section'><h3>Action Details</h3>\";\n            html += \"<div class='network-row'><span class='network-method'>Type</span><span>\" + (event.action_type || '') + \"</span></div>\";\n            if (event.selector) html += \"<div class='network-row'><span class='network-method'>Selector</span><span>\" + event.selector + \"</span></div>\";\n            if (event.value) html += \"<div class='network-row'><span class='network-method'>Value</span><span>\" + event.value + \"</span></div>\";\n            html += \"<div class='network-row'><span class='network-method'>Duration</span><span>\" + (event.duration_ms || 0) + \"ms</span></div>\";\n            html += \"<div class='network-row'><span class='network-method'>Result</span><span>\" + (event.result || 'success') + \"</span></div>\";\n            html += \"</div>\";\n          } else if (event.type === 'Network') {\n            const statusClass = (event.status || 0) < 400 ? 'success' : 'error';\n            html += \"<div class='detail-section'><h3>Network Request</h3>\";\n            html += \"<div class='network-row'><span class='network-method \" + (event.method || '').toLowerCase() + \"'>\" + (event.method || '?') + \"</span><span class='network-url'>\" + (event.url || '') + \"</span><span class='network-status \" + statusClass + \"'>\" + (event.status || '-') + \"</span></div>\";\n            if (event.timing) html += \"<div class='detail-section'><h3>Timing</h3><div class='network-row'><span>\" + event.timing + \"ms</span></div></div>\";\n            html += \"</div>\";\n          } else if (event.type === 'Console') {\n            html += \"<div class='detail-section'><h3>Console Output</h3>\";\n            html += \"<div class='console-entry'><span class='level \" + (event.level || 'log') + \"'>\" + (event.level || 'LOG').toUpperCase() + \"</span><span>\" + (event.message || '') + \"</span></div></div>\";\n          } else if (event.type === 'Snapshot') {\n            html += \"<div class='detail-section'><h3>DOM Snapshot</h3>\";\n            if (event.accessibility_tree && Array.isArray(event.accessibility_tree)) {\n              const treeHtml = event.accessibility_tree.map(function(node) {\n                const state = node.state && node.state.length ? ' [' + node.state.join(', ') + ']' : '';\n                const value = node.value ? ' = \"' + node.value + '\"' : '';\n                const name = node.name ? ' \"' + node.name + '\"' : '';\n                return node.role + name + value + state;\n              }).join('\\n');\n              html += \"<div class='snapshot-preview'>\" + (treeHtml || 'No accessibility nodes') + \"</div>\";\n            } else {\n              html += \"<div class='snapshot-preview'>\" + (event.accessibility_tree || 'No accessibility tree') + \"</div>\";\n            }\n            html += \"</div>\";\n            if (event.ai_metadata) {\n              html += \"<div class='detail-section'><h3>AI Metadata</h3>\";\n              html += \"<div class='network-row'><span class='network-method'>URL</span><span>\" + (event.ai_metadata.url || '') + \"</span></div>\";\n              html += \"<div class='network-row'><span class='network-method'>Interactive</span><span>\" + (event.ai_metadata.interactive_count || 0) + \" elements</span></div>\";\n              html += \"</div>\";\n            }\n            html += \"<div class='detail-section'><h3>HTML (truncated)</h3><div class='snapshot-preview'>\" + String((event.html || '').substring(0, 500)) + \"...</div></div>\";\n          }\n          html += \"</div>\";\n          detail.innerHTML = html;\n        }\n        function openTraceViewer(testName) {\n          document.getElementById('traceViewer').classList.add('visible');\n          const idx = window.traceData.findIndex(function(t) { return t.name === testName; });\n          if (idx >= 0) {\n            renderTraceStats(idx);\n            renderTraceEvents(idx);\n          }\n          window.scrollTo(0, 0);\n        }\n        function closeTraceViewer() {\n          document.getElementById('traceViewer').classList.remove('visible');\n        }\n          </script>\n";

/// The end of the page.
pub const HTML_TAIL: &'static str = "</body>\n</html>\n";

/// Escaped text holds no `<`, `>` or `"`: embedded in a page it can open
/// or close neither a tag nor an attribute value.
pub proof fn law_escaped_html_has_no_markup(s: Seq<char>)
    ensures
        !escape_html_spec(s).contains('<'),
        !escape_html_spec(s).contains('>'),
        !escape_html_spec(s).contains('"'),
{
    reveal_strlit("&");
    reveal_strlit("<");
    reveal_strlit(">");
    reveal_strlit("\"");
    reveal_strlit("&amp;");
    reveal_strlit("&lt;");
    reveal_strlit("&gt;");
    reveal_strlit("&quot;");
    let s1 = replace_spec(s, "&"@, "&amp;"@);
    let s2 = replace_spec(s1, "<"@, "&lt;"@);
    let s3 = replace_spec(s2, ">"@, "&gt;"@);
    let s4 = replace_spec(s3, "\""@, "&quot;"@);
    assert("<"@ =~= seq!['<']);
    assert(">"@ =~= seq!['>']);
    assert("\""@ =~= seq!['"']);
    assert("&lt;"@ =~= seq!['&', 'l', 't', ';']);
    assert("&gt;"@ =~= seq!['&', 'g', 't', ';']);
    assert("&quot;"@ =~= seq!['&', 'q', 'u', 'o', 't', ';']);
    assert(!"&lt;"@.contains('<'));
    assert(!"&gt;"@.contains('<') && !"&gt;"@.contains('>'));
    assert(!"&quot;"@.contains('<') && !"&quot;"@.contains('>') && !"&quot;"@.contains('"'));
    lemma_replace_char_members(s1, '<', "&lt;"@, '<');
    lemma_replace_char_members(s2, '>', "&gt;"@, '<');
    lemma_replace_char_members(s2, '>', "&gt;"@, '>');
    lemma_replace_char_members(s3, '"', "&quot;"@, '<');
    lemma_replace_char_members(s3, '"', "&quot;"@, '>');
    lemma_replace_char_members(s3, '"', "&quot;"@, '"');
}

/// The entity a character becomes in HTML text: `&amp;`, `&lt;`, `&gt;`
/// and `&quot;` for the four markup characters, the character itself
/// otherwise.
pub open spec fn html_char_escaped(c: char) -> Seq<char> {
    if c == '&' {
        "&amp;"@
    } else if c == '<' {
        "&lt;"@
    } else if c == '>' {
        "&gt;"@
    } else if c == '"' {
        "&quot;"@
    } else {
        seq![c]
    }
}

/// Each character of `s` escaped on its own, in order.
pub open spec fn html_chars_escaped(s: Seq<char>) -> Seq<char>
    decreases s.len(),
{
    if s.len() == 0 {
        Seq::empty()
    } else {
        html_char_escaped(s[0]) + html_chars_escaped(s.drop_first())
    }
}

/// Replacing a character in a text that begins with `c` treats `c` alone,
/// then the rest.
proof fn lemma_replace_char_front(c: char, t: Seq<char>, p: char, rep: Seq<char>)
    ensures
        replace_spec(seq![c] + t, seq![p], rep) == (if c == p { rep } else { seq![c] }) + replace_spec(t, seq![p], rep),
{
    let s = seq![c] + t;
    assert(s.take(1) =~= seq![c]);
    assert(s.skip(1) =~= t);
    assert(s.drop_first() =~= t);
    if c == p {
        assert(s.take(1) == seq![p]);
    } else {
        assert(s.take(1) != seq![p]) by {
            assert(s.take(1)[0] != seq![p][0]);
        }
    }
}

/// Replacing a character in two texts put together is replacing it in
/// each.
proof fn lemma_replace_char_concat(x: Seq<char>, y: Seq<char>, p: char, rep: Seq<char>)
    ensures
        replace_spec(x + y, seq![p], rep) == replace_spec(x, seq![p], rep) + replace_spec(y, seq![p], rep),
    decreases x.len(),
{
    if x.len() == 0 {
        assert(x + y =~= y);
        assert(replace_spec(x, seq![p], rep) =~= Seq::<char>::empty());
        assert(replace_spec(x, seq![p], rep) + replace_spec(y, seq![p], rep) =~= replace_spec(y, seq![p], rep));
    } else {
        let t = x.drop_first();
        lemma_replace_char_concat(t, y, p, rep);
        lemma_replace_char_front(x[0], t + y, p, rep);
        lemma_replace_char_front(x[0], t, p, rep);
        assert(seq![x[0]] + (t + y) =~= x + y);
        assert(seq![x[0]] + t =~= x);
        let h = if x[0] == p { rep } else { seq![x[0]] };
        assert(h + (replace_spec(t, seq![p], rep) + replace_spec(y, seq![p], rep))
            =~= (h + replace_spec(t, seq![p], rep)) + replace_spec(y, seq![p], rep));
    }
}

/// Replacing a character in a text without it changes nothing.
proof fn lemma_replace_char_absent(x: Seq<char>, p: char, rep: Seq<char>)
    requires
        !x.contains(p),
    ensures
        replace_spec(x, seq![p], rep) == x,
    decreases x.len(),
{
    if x.len() > 0 {
        let t = x.drop_first();
        assert(!t.contains(p)) by {
            if t.contains(p) {
                let i = choose|i: int| 0 <= i < t.len() && t[i] == p;
                assert(x[i + 1] == p);
            }
        }
        lemma_replace_char_absent(t, p, rep);
        assert(x[0] != p) by {
            assert(x.contains(x[0]));
        }
        lemma_replace_char_front(x[0], t, p, rep);
        assert(seq![x[0]] + t =~= x);
    }
}

/// Escaping two texts put together is escaping each.
proof fn lemma_escape_concat(x: Seq<char>, y: Seq<char>)
    ensures
        escape_html_spec(x + y) == escape_html_spec(x) + escape_html_spec(y),
{
    let x1 = replace_spec(x, "&"@, "&amp;"@);
    let y1 = replace_spec(y, "&"@, "&amp;"@);
    let x2 = replace_spec(x1, "<"@, "&lt;"@);
    let y2 = replace_spec(y1, "<"@, "&lt;"@);
    let x3 = replace_spec(x2, ">"@, "&gt;"@);
    let y3 = replace_spec(y2, ">"@, "&gt;"@);
    reveal_strlit("&");
    reveal_strlit("<");
    reveal_strlit(">");
    reveal_strlit("\"");
    assert("&"@ =~= seq!['&']);
    assert("<"@ =~= seq!['<']);
    assert(">"@ =~= seq!['>']);
    assert("\""@ =~= seq!['"']);
    lemma_replace_char_concat(x, y, '&', "&amp;"@);
    lemma_replace_char_concat(x1, y1, '<', "&lt;"@);
    lemma_replace_char_concat(x2, y2, '>', "&gt;"@);
    lemma_replace_char_concat(x3, y3, '"', "&quot;"@);
}

/// Escaping a single character gives its entity.
proof fn lemma_escape_one(c: char)
    ensures
        escape_html_spec(seq![c]) == html_char_escaped(c),
{
    reveal_strlit("&");
    reveal_strlit("<");
    reveal_strlit(">");
    reveal_strlit("\"");
    reveal_strlit("&amp;");
    reveal_strlit("&lt;");
    reveal_strlit("&gt;");
    reveal_strlit("&quot;");
    assert("&"@ =~= seq!['&']);
    assert("<"@ =~= seq!['<']);
    assert(">"@ =~= seq!['>']);
    assert("\""@ =~= seq!['"']);
    let amp = "&amp;"@;
    let lt = "&lt;"@;
    let gt = "&gt;"@;
    let quot = "&quot;"@;
    assert(amp =~= seq!['&', 'a', 'm', 'p', ';']);
    assert(lt =~= seq!['&', 'l', 't', ';']);
    assert(gt =~= seq!['&', 'g', 't', ';']);
    assert(quot =~= seq!['&', 'q', 'u', 'o', 't', ';']);
    let e = Seq::<char>::empty();
    assert(seq![c] + e =~= seq![c]);
    lemma_replace_char_front(c, e, '&', amp);
    let s1 = if c == '&' { amp } else { seq![c] };
    assert(replace_spec(e, seq!['&'], amp) =~= e);
    assert(replace_spec(seq![c], "&"@, amp) == s1);
    if c == '&' {
        assert(!amp.contains('<') && !amp.contains('>') && !amp.contains('"'));
        lemma_replace_char_absent(amp, '<', lt);
        lemma_replace_char_absent(amp, '>', gt);
        lemma_replace_char_absent(amp, '"', quot);
    } else {
        lemma_replace_char_front(c, e, '<', lt);
        assert(replace_spec(e, seq!['<'], lt) =~= e);
        let s2 = if c == '<' { lt } else { seq![c] };
        assert(replace_spec(s1, "<"@, lt) == s2);
        if c == '<' {
            assert(!lt.contains('>') && !lt.contains('"'));
            lemma_replace_char_absent(lt, '>', gt);
            lemma_replace_char_absent(lt, '"', quot);
        } else {
            lemma_replace_char_front(c, e, '>', gt);
            assert(replace_spec(e, seq!['>'], gt) =~= e);
            let s3 = if c == '>' { gt } else { seq![c] };
            assert(replace_spec(s2, ">"@, gt) == s3);
            if c == '>' {
                assert(!gt.contains('"'));
                lemma_replace_char_absent(gt, '"', quot);
            } else {
                lemma_replace_char_front(c, e, '"', quot);
                assert(replace_spec(e, seq!['"'], quot) =~= e);
            }
        }
    }
}

/// Escaping replaces each character by its own entity, independently of
/// its neighbours: so `&` is escaped once, and an entity already in the
/// text has its `&` escaped, not kept.
pub proof fn law_escape_html_char_by_char(s: Seq<char>)
    ensures
        escape_html_spec(s) == html_chars_escaped(s),
    decreases s.len(),
{
    if s.len() == 0 {
        reveal_strlit("&");
        reveal_strlit("<");
        reveal_strlit(">");
        reveal_strlit("\"");
        assert("&"@ =~= seq!['&']);
        assert("<"@ =~= seq!['<']);
        assert(">"@ =~= seq!['>']);
        assert("\""@ =~= seq!['"']);
        let e = Seq::<char>::empty();
        assert(replace_spec(e, seq!['&'], "&amp;"@) =~= e);
        assert(replace_spec(e, seq!['<'], "&lt;"@) =~= e);
        assert(replace_spec(e, seq!['>'], "&gt;"@) =~= e);
        assert(replace_spec(e, seq!['"'], "&quot;"@) =~= e);
    } else {
        let t = s.drop_first();
        law_escape_html_char_by_char(t);
        lemma_escape_concat(seq![s[0]], t);
        lemma_escape_one(s[0]);
        assert(seq![s[0]] + t =~= s);
    }
}

/// Escaped HTML text read back: each entity `&amp;`, `&lt;`, `&gt;`,
/// `&quot;` becomes its character, every other character stays.
pub open spec fn html_unescaped(t: Seq<char>) -> Seq<char>
    decreases t.len(),
{
    if t.len() == 0 {
        Seq::empty()
    } else if t.len() >= 5 && t.take(5) == "&amp;"@ {
        seq!['&'] + html_unescaped(t.skip(5))
    } else if t.len() >= 4 && t.take(4) == "&lt;"@ {
        seq!['<'] + html_unescaped(t.skip(4))
    } else if t.len() >= 4 && t.take(4) == "&gt;"@ {
        seq!['>'] + html_unescaped(t.skip(4))
    } else if t.len() >= 6 && t.take(6) == "&quot;"@ {
        seq!['"'] + html_unescaped(t.skip(6))
    } else {
        seq![t[0]] + html_unescaped(t.drop_first())
    }
}

/// Reading back one escaped character gives the character.
proof fn lemma_unescape_one(c: char, rest: Seq<char>)
    ensures
        html_unescaped(html_char_escaped(c) + rest) == seq![c] + html_unescaped(rest),
{
    reveal_strlit("&amp;");
    reveal_strlit("&lt;");
    reveal_strlit("&gt;");
    reveal_strlit("&quot;");
    let amp = "&amp;"@;
    let lt = "&lt;"@;
    let gt = "&gt;"@;
    let quot = "&quot;"@;
    assert(amp =~= seq!['&', 'a', 'm', 'p', ';']);
    assert(lt =~= seq!['&', 'l', 't', ';']);
    assert(gt =~= seq!['&', 'g', 't', ';']);
    assert(quot =~= seq!['&', 'q', 'u', 'o', 't', ';']);
    let t = html_char_escaped(c) + rest;
    if c == '&' {
        assert(t.take(5) =~= amp);
        assert(t.skip(5) =~= rest);
    } else if c == '<' {
        if t.len() >= 5 {
            assert(t.take(5)[1] != amp[1]);
        }
        assert(t.take(4) =~= lt);
        assert(t.skip(4) =~= rest);
    } else if c == '>' {
        if t.len() >= 5 {
            assert(t.take(5)[1] != amp[1]);
        }
        assert(t.take(4)[1] != lt[1]);
        assert(t.take(4) =~= gt);
        assert(t.skip(4) =~= rest);
    } else if c == '"' {
        if t.len() >= 5 {
            assert(t.take(5)[1] != amp[1]);
        }
        assert(t.take(4)[1] != lt[1]);
        assert(t.take(4)[1] != gt[1]);
        assert(t.take(6) =~= quot);
        assert(t.skip(6) =~= rest);
    } else {
        assert(t[0] == c);
        if t.len() >= 5 {
            assert(t.take(5)[0] != amp[0]);
        }
        if t.len() >= 4 {
            assert(t.take(4)[0] != lt[0]);
            assert(t.take(4)[0] != gt[0]);
        }
        if t.len() >= 6 {
            assert(t.take(6)[0] != quot[0]);
        }
        assert(t.drop_first() =~= rest);
    }
}

/// Reading escaped text back gives the text: escaping loses nothing.
pub proof fn law_unescape_html_round_trip(s: Seq<char>)
    ensures
        html_unescaped(escape_html_spec(s)) == s,
{
    law_escape_html_char_by_char(s);
    lemma_unescape_chars(s);
}

proof fn lemma_unescape_chars(s: Seq<char>)
    ensures
        html_unescaped(html_chars_escaped(s)) == s,
    decreases s.len(),
{
    if s.len() == 0 {
        assert(html_chars_escaped(s) =~= Seq::<char>::empty());
    } else {
        let rest = s.drop_first();
        lemma_unescape_chars(rest);
        lemma_unescape_one(s[0], html_chars_escaped(rest));
        assert(seq![s[0]] + rest =~= s);
    }
}

/// How many of the tests have status `status`.
pub open spec fn status_count(ts: Seq<TestCaseView>, status: Seq<char>) -> nat
    decreases ts.len(),
{
    if ts.len() == 0 {
        0
    } else {
        status_count(ts.drop_last(), status) + (if ts.last().status == status { 1nat } else { 0nat })
    }
}

/// The banner with the time of the run (not escaped).
pub open spec fn header_html(timestamp: Seq<char>) -> Seq<char> {
    "  <div class=\"header\">\n    <h1>TurboSheet Test Results</h1>\n    <p>Executed at: "@ + timestamp
        + "</p>\n  </div>\n"@
}

/// The four counters: passed, failed, skipped and the time in seconds.
pub open spec fn summary_html(passes: nat, failures: nat, skipped: nat, duration_ms: nat) -> Seq<char> {
    "  <div class=\"summary\">\n    <div class=\"stat\">\n      <div class=\"stat-value passed\">"@ + decimal_spec(passes)
        + "</div>\n      <div class=\"stat-label\">Passed</div>\n    </div>\n    <div class=\"stat\">\n      <div class=\"stat-value failed\">"@
        + decimal_spec(failures)
        + "</div>\n      <div class=\"stat-label\">Failed</div>\n    </div>\n    <div class=\"stat\">\n      <div class=\"stat-value skipped\">"@
        + decimal_spec(skipped)
        + "</div>\n      <div class=\"stat-label\">Skipped</div>\n    </div>\n    <div class=\"stat\">\n      <div class=\"stat-value\">"@
        + seconds2_spec(duration_ms) + "s</div>\n      <div class=\"stat-label\">Duration</div>\n    </div>\n  </div>\n"@
}

/// Whether a test failed and carries trace data.
pub open spec fn is_traced_failure(t: TestCaseView) -> bool {
    t.status == "failed"@ && t.trace_data is Some
}

/// The JSON object of a traced failure: its trace data and title as JSON
/// strings, keys in sorted order.
pub open spec fn trace_entry_json(t: TestCaseView) -> Seq<char> {
    "{\"data\":"@ + json_string_of(t.trace_data.unwrap()) + ",\"name\":"@ + json_string_of(t.title) + "}"@
}

/// The objects of the traced failures among `ts`, in order, separated by
/// commas.
pub open spec fn trace_entries_json(ts: Seq<TestCaseView>) -> Seq<char>
    decreases ts.len(),
{
    if ts.len() == 0 {
        Seq::empty()
    } else {
        let prev = trace_entries_json(ts.drop_last());
        if is_traced_failure(ts.last()) {
            if prev.len() == 0 {
                trace_entry_json(ts.last())
            } else {
                prev + ","@ + trace_entry_json(ts.last())
            }
        } else {
            prev
        }
    }
}

/// The trace data handed to the viewer: `null` when no test failed with
/// a trace, else the JSON array of their objects.
pub open spec fn trace_data_json(ts: Seq<TestCaseView>) -> Seq<char> {
    let items = trace_entries_json(ts);
    if items.len() == 0 {
        "null"@
    } else {
        "["@ + items + "]"@
    }
}

/// The trace viewer and the trace data of the run's tests.
pub open spec fn trace_component_html(ts: Seq<TestCaseView>) -> Seq<char> {
    TRACE_VIEWER@ + "  <script>window.traceData = "@ + trace_data_json(ts) + ";</script>\n"@
}

/// The class of a test's icon: `passed`, `failed`, or else `skipped`.
pub open spec fn icon_class(status: Seq<char>) -> Seq<char> {
    if status == "passed"@ {
        "passed"@
    } else if status == "failed"@ {
        "failed"@
    } else {
        "skipped"@
    }
}

/// The symbol of a test's icon: a check mark, a cross, or else a dash.
pub open spec fn icon_symbol(status: Seq<char>) -> Seq<char> {
    if status == "passed"@ {
        seq!['\u{2713}']
    } else if status == "failed"@ {
        seq!['\u{2717}']
    } else {
        "-"@
    }
}

/// The thumbnail of the `n`-th screenshot (counted from 1) at `path`.
pub open spec fn screenshot_html(n: nat, path: Seq<char>) -> Seq<char> {
    "          <img src=\""@ + escape_html_spec(path) + "\" class=\"screenshot-thumb\" onclick=\"viewScreenshot('"@
        + escape_html_spec(path) + "')\" alt=\"Screenshot "@ + decimal_spec(n) + "\"/>\n"@
}

/// The thumbnails of the screenshots, in order.
pub open spec fn screenshots_html(paths: Seq<Seq<char>>) -> Seq<char>
    decreases paths.len(),
{
    if paths.len() == 0 {
        Seq::empty()
    } else {
        screenshots_html(paths.drop_last()) + screenshot_html(paths.len(), paths.last())
    }
}

/// The start of a test's row: its status, icon and escaped title.
pub open spec fn test_open_html(t: TestCaseView) -> Seq<char> {
    "    <div class=\"test\" data-status=\""@ + t.status + "\" onclick=\"toggleError(this)\">\n      <div class=\"test-icon "@
        + icon_class(t.status) + "\">"@ + icon_symbol(t.status)
        + "</div>\n      <div class=\"test-name\">        <div class=\"test-name-text\">"@ + escape_html_spec(t.title)
        + "</div>\n      </div>\n      <div class=\"test-meta\">\n"@
}

/// A test's screenshots, when it has any.
pub open spec fn test_screenshots_html(t: TestCaseView) -> Seq<char> {
    if t.screenshot_paths.len() > 0 {
        "        <div class=\"test-screenshots\">\n"@ + screenshots_html(t.screenshot_paths) + "        </div>\n"@
    } else {
        Seq::empty()
    }
}

/// The link to a test's trace, when it failed.
pub open spec fn test_trace_link_html(t: TestCaseView) -> Seq<char> {
    if t.status == "failed"@ {
        "        <a href=\"#\" class=\"trace-link\" onclick=\"event.stopPropagation(); openTraceViewer('"@
            + escape_html_spec(t.title) + "')\">View Trace</a>\n"@
    } else {
        Seq::empty()
    }
}

/// The end of a test's row: its time in seconds; then its escaped error,
/// hidden, when it has one.
pub open spec fn test_close_html(t: TestCaseView) -> Seq<char> {
    "        <span class=\"test-duration\">"@ + seconds2_spec(t.duration_ms as nat) + "s</span>\n      </div>\n    </div>\n"@
        + match t.error {
            Some(e) => "    <div class=\"error-message\" style=\"display: none;\">"@ + escape_html_spec(e) + "\n    </div>\n"@,
            None => Seq::empty(),
        }
}

/// The row of one test: its start, screenshots, trace link and end.
pub open spec fn test_html(t: TestCaseView) -> Seq<char> {
    test_open_html(t) + test_screenshots_html(t) + test_trace_link_html(t) + test_close_html(t)
}

/// The rows of the tests, in order.
pub open spec fn tests_html(ts: Seq<TestCaseView>) -> Seq<char>
    decreases ts.len(),
{
    if ts.len() == 0 {
        Seq::empty()
    } else {
        tests_html(ts.drop_last()) + test_html(ts.last())
    }
}

/// The block of one suite: its escaped name, how many of its tests passed
/// and failed, then its tests.
pub open spec fn suite_html(s: TestSuiteView) -> Seq<char> {
    "  <div class=\"suite\">\n    <div class=\"suite-header\">\n      <span>"@ + escape_html_spec(s.name)
        + "</span>\n      <span class=\"suite-stats\">"@ + decimal_spec(status_count(s.tests, "passed"@)) + " passed, "@
        + decimal_spec(status_count(s.tests, "failed"@)) + " failed</span>\n    </div>\n"@ + tests_html(s.tests)
        + "  </div>\n"@
}

/// The blocks of the suites, in order.
pub open spec fn suites_html(ss: Seq<TestSuiteView>) -> Seq<char>
    decreases ss.len(),
{
    if ss.len() == 0 {
        Seq::empty()
    } else {
        suites_html(ss.drop_last()) + suite_html(ss.last())
    }
}

/// The page of a run: head and styles; banner, counters and filter bar;
/// the trace viewer with the run's traced failures; the suites; the
/// scripts.
pub open spec fn html_report_spec(
    timestamp: Seq<char>,
    passes: nat,
    failures: nat,
    skipped: nat,
    duration_ms: nat,
    tests: Seq<TestCaseView>,
    suites: Seq<TestSuiteView>,
) -> Seq<char> {
    HTML_HEAD@ + PAGE_STYLES@ + TRACE_STYLES@ + BODY_OPEN@ + header_html(timestamp) + summary_html(
        passes,
        failures,
        skipped,
        duration_ms,
    ) + FILTER_BAR@ + trace_component_html(tests) + suites_html(suites) + PAGE_SCRIPTS@ + TRACE_SCRIPTS@ + HTML_TAIL@
}

fn push_status_count(out: &mut Vec<char>, tests: &Vec<TestCaseResult>, status: &str)
    ensures
        final(out)@ == old(out)@ + decimal_spec(status_count(cases_view(tests@), status@)),
{
    let mut n: usize = 0;
    let mut i: usize = 0;
    while i < tests.len()
        invariant
            i <= tests@.len(),
            n == status_count(cases_view(tests@.take(i as int)), status@),
            n <= i,
        decreases tests.len() - i,
    {
        if str_eq(tests[i].status.as_str(), status) {
            n = n + 1;
        }
        assert(cases_view(tests@.take(i + 1)).drop_last() =~= cases_view(tests@.take(i as int)));
        i = i + 1;
    }
    assert(tests@.take(tests@.len() as int) =~= tests@);
    push_decimal(out, n as u64);
}

impl HtmlReporter {
    /// The page of a run (see `html_report_spec`).
    pub fn write(result: &AggregatedTestResult) -> (s: String)
        ensures
            s@ == html_report_spec(
                result.timestamp@,
                result.passes as nat,
                result.failures as nat,
                result.skipped as nat,
                result.duration_ms as nat,
                cases_view(result.tests@),
                suites_view(result.suites@),
            ),
    {
        let mut out: Vec<char> = Vec::new();
        push_str(&mut out, HTML_HEAD);
        push_str(&mut out, PAGE_STYLES);
        push_str(&mut out, TRACE_STYLES);
        push_str(&mut out, BODY_OPEN);
        Self::write_header(&mut out, result);
        Self::write_summary(&mut out, result);
        push_str(&mut out, FILTER_BAR);
        Self::write_trace_viewer_component(&mut out, &result.tests);
        let ghost head = out@;
        let suites = &result.suites;
        let mut i: usize = 0;
        while i < suites.len()
            invariant
                i <= suites@.len(),
                out@ == head + suites_html(suites_view(suites@.take(i as int))),
            decreases suites.len() - i,
        {
            Self::write_suite(&mut out, &suites[i]);
            assert(suites_view(suites@.take(i + 1)).drop_last() =~= suites_view(suites@.take(i as int)));
            i = i + 1;
        }
        assert(suites@.take(suites@.len() as int) =~= suites@);
        push_str(&mut out, PAGE_SCRIPTS);
        push_str(&mut out, TRACE_SCRIPTS);
        push_str(&mut out, HTML_TAIL);
        assert(out@ =~= html_report_spec(
            result.timestamp@,
            result.passes as nat,
            result.failures as nat,
            result.skipped as nat,
            result.duration_ms as nat,
            cases_view(result.tests@),
            suites_view(result.suites@),
        ));
        string_from_chars(&out)
    }

    fn write_header(out: &mut Vec<char>, result: &AggregatedTestResult)
        ensures
            final(out)@ == old(out)@ + header_html(result.timestamp@),
    {
        push_str(out, "  <div class=\"header\">\n    <h1>TurboSheet Test Results</h1>\n    <p>Executed at: ");
        push_str(out, result.timestamp.as_str());
        push_str(out, "</p>\n  </div>\n");
        assert(final(out)@ =~= old(out)@ + header_html(result.timestamp@));
    }

    fn write_summary(out: &mut Vec<char>, result: &AggregatedTestResult)
        ensures
            final(out)@ == old(out)@ + summary_html(
                result.passes as nat,
                result.failures as nat,
                result.skipped as nat,
                result.duration_ms as nat,
            ),
    {
        push_str(out, "  <div class=\"summary\">\n    <div class=\"stat\">\n      <div class=\"stat-value passed\">");
        push_decimal(out, result.passes as u64);
        push_str(
            out,
            "</div>\n      <div class=\"stat-label\">Passed</div>\n    </div>\n    <div class=\"stat\">\n      <div class=\"stat-value failed\">",
        );
        push_decimal(out, result.failures as u64);
        push_str(
            out,
            "</div>\n      <div class=\"stat-label\">Failed</div>\n    </div>\n    <div class=\"stat\">\n      <div class=\"stat-value skipped\">",
        );
        push_decimal(out, result.skipped as u64);
        push_str(
            out,
            "</div>\n      <div class=\"stat-label\">Skipped</div>\n    </div>\n    <div class=\"stat\">\n      <div class=\"stat-value\">",
        );
        push_seconds2(out, result.duration_ms);
        push_str(out, "s</div>\n      <div class=\"stat-label\">Duration</div>\n    </div>\n  </div>\n");
        assert(final(out)@ =~= old(out)@ + summary_html(
            result.passes as nat,
            result.failures as nat,
            result.skipped as nat,
            result.duration_ms as nat,
        ));
    }

    fn write_trace_viewer_component(out: &mut Vec<char>, tests: &Vec<TestCaseResult>)
        ensures
            final(out)@ == old(out)@ + trace_component_html(cases_view(tests@)),
    {
        let mut items: Vec<char> = Vec::new();
        let mut i: usize = 0;
        while i < tests.len()
            invariant
                i <= tests@.len(),
                items@ == trace_entries_json(cases_view(tests@.take(i as int))),
            decreases tests.len() - i,
        {
            let t = &tests[i];
            assert(cases_view(tests@.take(i + 1)).drop_last() =~= cases_view(tests@.take(i as int)));
            assert(cases_view(tests@.take(i + 1)).last() == t@);
            if str_eq(t.status.as_str(), "failed") {
                match &t.trace_data {
                    Some(data) => {
                        if items.len() > 0 {
                            push_str(&mut items, ",");
                        }
                        push_str(&mut items, "{\"data\":");
                        let d = json_string(data.as_str());
                        push_str(&mut items, d.as_str());
                        push_str(&mut items, ",\"name\":");
                        let n = json_string(t.title.as_str());
                        push_str(&mut items, n.as_str());
                        push_str(&mut items, "}");
                    },
                    None => {},
                }
            }
            i = i + 1;
            assert(items@ =~= trace_entries_json(cases_view(tests@.take(i as int))));
        }
        assert(tests@.take(tests@.len() as int) =~= tests@);
        push_str(out, TRACE_VIEWER);
        push_str(out, "  <script>window.traceData = ");
        if items.len() == 0 {
            push_str(out, "null");
        } else {
            push_str(out, "[");
            let ghost before = out@;
            let mut k: usize = 0;
            while k < items.len()
                invariant
                    k <= items@.len(),
                    out@ == before + items@.take(k as int),
                decreases items.len() - k,
            {
                out.push(items[k]);
                k = k + 1;
                assert(out@ =~= before + items@.take(k as int));
            }
            assert(items@.take(items@.len() as int) =~= items@);
            push_str(out, "]");
        }
        push_str(out, ";</script>\n");
        assert(final(out)@ =~= old(out)@ + trace_component_html(cases_view(tests@)));
    }

    fn write_suite(out: &mut Vec<char>, suite: &TestSuiteResult)
        ensures
            final(out)@ == old(out)@ + suite_html(suite@),
    {
        push_str(out, "  <div class=\"suite\">\n    <div class=\"suite-header\">\n      <span>");
        let name = escape_html(suite.name.as_str());
        push_str(out, name.as_str());
        push_str(out, "</span>\n      <span class=\"suite-stats\">");
        push_status_count(out, &suite.tests, "passed");
        push_str(out, " passed, ");
        push_status_count(out, &suite.tests, "failed");
        push_str(out, " failed</span>\n    </div>\n");
        let tests = &suite.tests;
        let ghost head = out@;
        let mut j: usize = 0;
        while j < tests.len()
            invariant
                j <= tests@.len(),
                out@ == head + tests_html(cases_view(tests@.take(j as int))),
            decreases tests.len() - j,
        {
            Self::write_test(out, &tests[j]);
            assert(cases_view(tests@.take(j + 1)).drop_last() =~= cases_view(tests@.take(j as int)));
            j = j + 1;
        }
        assert(tests@.take(tests@.len() as int) =~= tests@);
        push_str(out, "  </div>\n");
        assert(final(out)@ =~= old(out)@ + suite_html(suite@));
    }

    fn write_screenshots(out: &mut Vec<char>, paths: &Vec<String>)
        ensures
            final(out)@ == old(out)@ + screenshots_html(strings_view(paths@)),
    {
        let ghost head = out@;
        let mut i: usize = 0;
        while i < paths.len()
            invariant
                i <= paths@.len(),
                out@ == head + screenshots_html(strings_view(paths@.take(i as int))),
            decreases paths.len() - i,
        {
            let e = escape_html(paths[i].as_str());
            push_str(out, "          <img src=\"");
            push_str(out, e.as_str());
            push_str(out, "\" class=\"screenshot-thumb\" onclick=\"viewScreenshot('");
            push_str(out, e.as_str());
            push_str(out, "')\" alt=\"Screenshot ");
            push_decimal(out, (i as u64) + 1);
            push_str(out, "\"/>\n");
            assert(strings_view(paths@.take(i + 1)).drop_last() =~= strings_view(paths@.take(i as int)));
            assert(strings_view(paths@.take(i + 1)).last() == paths@[i as int]@);
            i = i + 1;
            assert(out@ =~= head + screenshots_html(strings_view(paths@.take(i as int))));
        }
        assert(paths@.take(paths@.len() as int) =~= paths@);
    }

    fn write_test_open(out: &mut Vec<char>, test: &TestCaseResult)
        ensures
            final(out)@ == old(out)@ + test_open_html(test@),
    {
        let passed = str_eq(test.status.as_str(), "passed");
        let failed = str_eq(test.status.as_str(), "failed");
        push_str(out, "    <div class=\"test\" data-status=\"");
        push_str(out, test.status.as_str());
        push_str(out, "\" onclick=\"toggleError(this)\">\n      <div class=\"test-icon ");
        if passed {
            push_str(out, "passed");
        } else if failed {
            push_str(out, "failed");
        } else {
            push_str(out, "skipped");
        }
        push_str(out, "\">");
        if passed {
            out.push('\u{2713}');
        } else if failed {
            out.push('\u{2717}');
        } else {
            push_str(out, "-");
        }
        push_str(out, "</div>\n      <div class=\"test-name\">        <div class=\"test-name-text\">");
        let title = escape_html(test.title.as_str());
        push_str(out, title.as_str());
        push_str(out, "</div>\n      </div>\n      <div class=\"test-meta\">\n");
        assert(final(out)@ =~= old(out)@ + test_open_html(test@));
    }

    fn write_test_close(out: &mut Vec<char>, test: &TestCaseResult)
        ensures
            final(out)@ == old(out)@ + test_close_html(test@),
    {
        push_str(out, "        <span class=\"test-duration\">");
        push_seconds2(out, test.duration_ms);
        push_str(out, "s</span>\n      </div>\n    </div>\n");
        match &test.error {
            Some(e) => {
                push_str(out, "    <div class=\"error-message\" style=\"display: none;\">");
                let esc = escape_html(e.as_str());
                push_str(out, esc.as_str());
                push_str(out, "\n    </div>\n");
            },
            None => {},
        }
        assert(final(out)@ =~= old(out)@ + test_close_html(test@));
    }

    fn write_test(out: &mut Vec<char>, test: &TestCaseResult)
        ensures
            final(out)@ == old(out)@ + test_html(test@),
    {
        Self::write_test_open(out, test);
        let ghost a = out@;
        if test.screenshot_paths.len() > 0 {
            push_str(out, "        <div class=\"test-screenshots\">\n");
            Self::write_screenshots(out, &test.screenshot_paths);
            push_str(out, "        </div>\n");
        }
        assert(out@ =~= a + test_screenshots_html(test@));
        let ghost b = out@;
        if str_eq(test.status.as_str(), "failed") {
            push_str(
                out,
                "        <a href=\"#\" class=\"trace-link\" onclick=\"event.stopPropagation(); openTraceViewer('",
            );
            let title = escape_html(test.title.as_str());
            push_str(out, title.as_str());
            push_str(out, "')\">View Trace</a>\n");
        }
        assert(out@ =~= b + test_trace_link_html(test@));
        Self::write_test_close(out, test);
        assert(final(out)@ =~= old(out)@ + test_html(test@));
    }
}

} // verus!
