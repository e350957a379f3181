//! The HTML shell into which a page is interpolated: the user's shell with
//! the scripts, document metadata, state and content of a page placed into
//! it.
use crate::assoc::{keys_distinct, to_map};
use crate::server::build_error_page::json_string;
use crate::text::{join, join_strings, opt_view, replace_all, replace_str, views};
use std::collections::HashMap;
use vstd::prelude::*;

verus! {

/// Represents the data necessary to render a page.
#[derive(Debug, Clone)]
pub struct PageData {
    /// Prerendered HTML content.
    pub content: String,
    /// The state for hydration, if the page has any, kept as a string.
    pub state: Option<String>,
    /// The document metadata of the page.
    pub head: String,
}

/// Special characters in page data escaped so that they cannot interfere with
/// JavaScript processing: backslashes are doubled, then backticks and `${`
/// interpolations are preceded by a backslash.
pub open spec fn escape_page_data_spec(data: Seq<char>) -> Seq<char> {
    replace_all(replace_all(replace_all(data, "\\"@, "\\\\"@), "`"@, "\\`"@), "${"@, "\\${"@)
}

/// Escapes special characters in page data that might interfere with
/// JavaScript processing.
pub fn escape_page_data(data: &str) -> (r: String)
    ensures
        r@ == escape_page_data_spec(data@),
{
    proof {
        reveal_strlit("\\");
        reveal_strlit("`");
        reveal_strlit("${");
    }
    let a = replace_str(data, "\\", "\\\\");
    let b = replace_str(a.as_str(), "`", "\\`");
    replace_str(b.as_str(), "${", "\\${")
}

/// `replace_all` leaves a text alone if it never holds the pattern's first
/// character.
pub proof fn lemma_replace_absent(s: Seq<char>, pat: Seq<char>, rep: Seq<char>)
    requires
        pat.len() > 0,
        !s.contains(pat[0]),
    ensures
        replace_all(s, pat, rep) == s,
    decreases s.len(),
{
    if s.len() >= pat.len() {
        if s.take(pat.len() as int) == pat {
            assert(s[0] == pat[0]);
            assert(s.contains(s[0]));
        }
        assert(!s.skip(1).contains(pat[0])) by {
            if s.skip(1).contains(pat[0]) {
                let j = choose|j: int| 0 <= j < s.skip(1).len() && s.skip(1)[j] == pat[0];
                assert(s[j + 1] == pat[0]);
            }
        }
        lemma_replace_absent(s.skip(1), pat, rep);
        assert(seq![s[0]] + s.skip(1) == s);
    }
}

/// Page data that holds no backslash, backtick or dollar sign is left as it
/// is by escaping.
pub proof fn law_escape_identity_on_plain_text(data: Seq<char>)
    requires
        !data.contains('\\'),
        !data.contains('`'),
        !data.contains('$'),
    ensures
        escape_page_data_spec(data) == data,
{
    reveal_strlit("\\");
    reveal_strlit("`");
    reveal_strlit("${");
    lemma_replace_absent(data, "\\"@, "\\\\"@);
    lemma_replace_absent(data, "`"@, "\\`"@);
    lemma_replace_absent(data, "${"@, "\\${"@);
}

/// The shell used to interpolate the app into, including associated scripts
/// and content defined by the user and by the core.
#[derive(Clone, Debug)]
pub struct HtmlShell {
    /// The actual shell content, on which interpolations will be performed.
    pub shell: String,
    /// Additional contents of the head before the interpolation boundary.
    pub head_before_boundary: Vec<String>,
    /// Scripts to be inserted before the interpolation boundary.
    pub scripts_before_boundary: Vec<String>,
    /// Additional contents of the head after the interpolation boundary.
    pub head_after_boundary: Vec<String>,
    /// Scripts to be interpolated after the interpolation boundary.
    pub scripts_after_boundary: Vec<String>,
    /// Content to be interpolated into the body of the shell.
    pub content: String,
    /// Code to be inserted into the shell before the contents of the page.
    pub before_content: Vec<String>,
    /// Code to be inserted into the shell after the contents of the page.
    pub after_content: Vec<String>,
    /// The ID of the element into which we'll interpolate content.
    root_id: String,
    /// The path prefix to use.
    path_prefix: String,
}

/// The model of an [`HtmlShell`].
pub struct HtmlShellView {
    pub shell: Seq<char>,
    pub head_before_boundary: Seq<Seq<char>>,
    pub scripts_before_boundary: Seq<Seq<char>>,
    pub head_after_boundary: Seq<Seq<char>>,
    pub scripts_after_boundary: Seq<Seq<char>>,
    pub content: Seq<char>,
    pub before_content: Seq<Seq<char>>,
    pub after_content: Seq<Seq<char>>,
    pub root_id: Seq<char>,
    pub path_prefix: Seq<char>,
}

impl View for HtmlShell {
    type V = HtmlShellView;

    closed spec fn view(&self) -> HtmlShellView {
        HtmlShellView {
            shell: self.shell@,
            head_before_boundary: views(self.head_before_boundary@),
            scripts_before_boundary: views(self.scripts_before_boundary@),
            head_after_boundary: views(self.head_after_boundary@),
            scripts_after_boundary: views(self.scripts_after_boundary@),
            content: self.content@,
            before_content: views(self.before_content@),
            after_content: views(self.after_content@),
            root_id: self.root_id@,
            path_prefix: self.path_prefix@,
        }
    }
}

/// The script that defines the render configuration as a global variable.
pub open spec fn render_cfg_script(render_cfg_json: Seq<char>) -> Seq<char> {
    "window.__PERSEUS_RENDER_CFG = '"@ + render_cfg_json + "';"@
}

/// The script that tells the app shell it is being tested.
pub open spec fn testing_script() -> Seq<char> {
    "window.__PERSEUS_TESTING = true;"@
}

/// The module script that loads the Wasm bundle from under `path_prefix`.
pub open spec fn wasm_loader_script(path_prefix: Seq<char>) -> Seq<char> {
    "\n        import init, { run } from \""@ + path_prefix + "/.perseus/bundle.js\";\n        async function main() {\n            await init(\""@ + path_prefix + "/.perseus/bundle.wasm\");\n            run();\n        }\n        main();\n        "@
}

/// The script that passes on the host of the reload server.
pub open spec fn reload_host_script(host: Seq<char>) -> Seq<char> {
    "window.__PERSEUS_RELOAD_SERVER_HOST = '"@ + host + "'"@
}

/// The script that passes on the port of the reload server.
pub open spec fn reload_port_script(port: Seq<char>) -> Seq<char> {
    "window.__PERSEUS_RELOAD_SERVER_PORT = '"@ + port + "'"@
}

/// The `<base>` element, with a trailing `/` after the path prefix.
pub open spec fn base_element(path_prefix: Seq<char>) -> Seq<char> {
    "<base href=\""@ + path_prefix + "/\" />"@
}

/// The script that holds the initial state of a page.
pub open spec fn initial_state_script(state: Seq<char>) -> Seq<char> {
    "window.__PERSEUS_INITIAL_STATE = `"@ + state + "`;"@
}

/// The script that holds the global state.
pub open spec fn global_state_script(state: Seq<char>) -> Seq<char> {
    "window.__PERSEUS_GLOBAL_STATE = `"@ + state + "`;"@
}

/// The redirect used when JavaScript is disabled.
pub open spec fn noscript_redirect(url: Seq<char>) -> Seq<char> {
    "<noscript>\n        <meta http-equiv=\"refresh\" content=\"0; url="@ + url + "\" />\n    </noscript>"@
}

/// The redirect used when JavaScript is enabled but Wasm is not supported.
pub open spec fn js_redirect_script(url: Seq<char>) -> Seq<char> {
    "\n        function wasmSupported() {\n            try {\n                if (typeof WebAssembly === \"object\"\n                    && typeof WebAssembly.instantiate === \"function\") {\n                    const module = new WebAssembly.Module(Uint8Array.of(0x0, 0x61, 0x73, 0x6d, 0x01, 0x00, 0x00, 0x00));\n                    if (module instanceof WebAssembly.Module) {\n                        return new WebAssembly.Instance(module) instanceof WebAssembly.Instance;\n                    }\n                }\n            } catch (e) {}\n            return false;\n        }\n\n        if (!wasmSupported()) {\n            window.location.replace(\""@ + url + "\");\n        }\n            "@
}

/// The script that marks the initial state as an error page's data.
pub open spec fn error_state_script(error_json: Seq<char>) -> Seq<char> {
    "window.__PERSEUS_INITIAL_STATE = `error-"@ + escape_page_data_spec(error_json) + "`;"@
}

impl HtmlShellView {
    /// A freshly initialized shell.
    pub open spec fn initial(
        shell: Seq<char>,
        root_id: Seq<char>,
        render_cfg_json: Seq<char>,
        path_prefix: Seq<char>,
        testing: bool,
        use_reload_server: bool,
        reload_host: Option<Seq<char>>,
        reload_port: Option<Seq<char>>,
    ) -> Self {
        let host = match reload_host {
            Some(h) => h,
            None => "localhost"@,
        };
        let port = match reload_port {
            Some(p) => p,
            None => "3100"@,
        };
        HtmlShellView {
            shell,
            head_before_boundary: seq![base_element(path_prefix)],
            scripts_before_boundary: seq![render_cfg_script(render_cfg_json)] + (if testing {
                seq![testing_script()]
            } else {
                Seq::empty()
            }) + seq![wasm_loader_script(path_prefix)] + (if use_reload_server {
                seq![reload_host_script(host), reload_port_script(port)]
            } else {
                Seq::empty()
            }),
            head_after_boundary: Seq::empty(),
            scripts_after_boundary: Seq::empty(),
            content: Seq::empty(),
            before_content: Seq::empty(),
            after_content: Seq::empty(),
            root_id,
            path_prefix,
        }
    }

    /// This is the shell freshly initialized from these arguments.
    pub open spec fn is_initial(
        self,
        shell: Seq<char>,
        root_id: Seq<char>,
        render_cfg_json: Seq<char>,
        path_prefix: Seq<char>,
        testing: bool,
        use_reload_server: bool,
        reload_host: Option<Seq<char>>,
        reload_port: Option<Seq<char>>,
    ) -> bool {
        self == Self::initial(
            shell,
            root_id,
            render_cfg_json,
            path_prefix,
            testing,
            use_reload_server,
            reload_host,
            reload_port,
        )
    }

    /// The end of the document head: the scripts before the boundary, the
    /// boundary comment, the head after it and the scripts after it.
    pub open spec fn head_end(self) -> Seq<char> {
        "\n            <script type=\"module\">"@ + join(self.scripts_before_boundary, "\n"@) + "</script>\n            <!--PERSEUS_INTERPOLATED_HEAD_BEGINS-->\n            "@ + join(
            self.head_after_boundary,
            "\n"@,
        ) + "\n            <script>"@ + join(self.scripts_after_boundary, "\n"@) + "</script>\n            "@
    }

    /// The element the user places in the shell for the content, with double
    /// quotes.
    pub open spec fn root_div_double(self) -> Seq<char> {
        "<div id=\""@ + self.root_id + "\">"@
    }

    /// The element the user places in the shell for the content, with single
    /// quotes.
    pub open spec fn root_div_single(self) -> Seq<char> {
        "<div id='"@ + self.root_id + "'>"@
    }

    /// The content element that replaces the user's root element.
    pub open spec fn root_replacement(self) -> Seq<char> {
        self.root_div_double() + "<div id=\"__perseus_content_initial\" class=\"__perseus_content\">"@
            + self.content + "</div>"@
    }

    /// The final HTML: the shell with the head contents placed after `<head>`
    /// and before `</head>`, the body contents after `<body>` and before
    /// `</body>`, and the content inside the root element.
    pub open spec fn html(self) -> Seq<char> {
        let s1 = replace_all(self.shell, "<head>"@, "<head>"@ + join(self.head_before_boundary, "\n"@));
        let s2 = replace_all(s1, "</head>"@, self.head_end() + "</head>"@);
        let s3 = replace_all(s2, "<body>"@, "<body>"@ + join(self.before_content, "\n"@));
        let s4 = replace_all(s3, "</body>"@, join(self.after_content, "\n"@) + "</body>"@);
        let s5 = replace_all(s4, self.root_div_double(), self.root_replacement());
        replace_all(s5, self.root_div_single(), self.root_replacement())
    }
}

/// (key, value) entries of a map of strings, in some order.
pub type StringEntries = Seq<(String, String)>;

/// The compact JSON object with the given entries, in that order.
pub open spec fn json_object(entries: Seq<(String, String)>) -> Seq<char> {
    "{"@ + join(
        entries.map_values(|p: (String, String)| json_string(p.0@) + ":"@ + json_string(p.1@)),
        ","@,
    ) + "}"@
}

/// `text` is the compact JSON object of the map `m`, its entries in some
/// order.
pub open spec fn is_json_of_map(text: Seq<char>, m: Map<String, String>) -> bool {
    exists|entries: StringEntries| keys_distinct(entries) && to_map(entries) == m && text == json_object(entries)
}

/// Serializes the render configuration to JSON (`serde_json::to_string`,
/// which cannot fail on a map of strings). Trusted: the text is the compact
/// JSON object with one entry per entry of the map, each key and value
/// written as `serde_json` writes a string. Their order, that of a
/// `HashMap` walk (which each process seeds), is left unsaid.
#[verifier::external_body]
fn render_cfg_to_json(render_cfg: &HashMap<String, String>) -> (r: String)
    ensures
        is_json_of_map(r@, render_cfg@),
{
    serde_json::to_string(render_cfg).unwrap()
}

/// Concatenates three pieces of text.
fn concat3(a: &str, b: &str, c: &str) -> (r: String)
    ensures
        r@ == a@ + b@ + c@,
{
    let mut r = a.to_owned();
    r.append(b);
    r.append(c);
    r
}

impl HtmlShell {
    /// Initializes the HTML shell, given the render configuration already
    /// serialized to JSON: the render configuration, testing flag, Wasm
    /// loader and (when in use) reload server address are placed as scripts
    /// before the boundary, and a `<base>` element at the top of the head.
    pub fn new_with_render_cfg(
        shell: String,
        root_id: &str,
        render_cfg_json: &str,
        path_prefix: &str,
        testing: bool,
        use_reload_server: bool,
        reload_host: Option<String>,
        reload_port: Option<String>,
    ) -> (r: Self)
        ensures
            r@ == HtmlShellView::initial(
                shell@,
                root_id@,
                render_cfg_json@,
                path_prefix@,
                testing,
                use_reload_server,
                opt_view(reload_host),
                opt_view(reload_port),
            ),
    {
        let mut head_before_boundary: Vec<String> = Vec::new();
        let mut scripts_before_boundary: Vec<String> = Vec::new();
        let ghost host_v = match opt_view(reload_host) {
            Some(h) => h,
            None => "localhost"@,
        };
        let ghost port_v = match opt_view(reload_port) {
            Some(p) => p,
            None => "3100"@,
        };
        scripts_before_boundary.push(concat3("window.__PERSEUS_RENDER_CFG = '", render_cfg_json, "';"));
        assert(views(scripts_before_boundary@) == seq![render_cfg_script(render_cfg_json@)]);
        if testing {
            scripts_before_boundary.push("window.__PERSEUS_TESTING = true;".to_owned());
        }
        let ghost sofar = seq![render_cfg_script(render_cfg_json@)] + (if testing {
            seq![testing_script()]
        } else {
            Seq::<Seq<char>>::empty()
        });
        assert(views(scripts_before_boundary@) == sofar);
        let mut wasm = concat3("\n        import init, { run } from \"", path_prefix, "/.perseus/bundle.js\";\n        async function main() {\n            await init(\"");
        wasm.append(path_prefix);
        wasm.append("/.perseus/bundle.wasm\");\n            run();\n        }\n        main();\n        ");
        scripts_before_boundary.push(wasm);
        let ghost sofar2 = sofar + seq![wasm_loader_script(path_prefix@)];
        assert(views(scripts_before_boundary@) == sofar2);
        if use_reload_server {
            let host = match reload_host {
                Some(h) => h,
                None => "localhost".to_owned(),
            };
            let port = match reload_port {
                Some(p) => p,
                None => "3100".to_owned(),
            };
            assert(host@ == host_v);
            assert(port@ == port_v);
            scripts_before_boundary.push(
                concat3("window.__PERSEUS_RELOAD_SERVER_HOST = '", host.as_str(), "'"),
            );
            scripts_before_boundary.push(
                concat3("window.__PERSEUS_RELOAD_SERVER_PORT = '", port.as_str(), "'"),
            );
            assert(views(scripts_before_boundary@) == sofar2 + seq![
                reload_host_script(host_v),
                reload_port_script(port_v),
            ]);
        } else {
            assert(sofar2 + Seq::<Seq<char>>::empty() == sofar2);
        }
        head_before_boundary.push(concat3("<base href=\"", path_prefix, "/\" />"));
        assert(views(head_before_boundary@) == seq![base_element(path_prefix@)]);
        let r = HtmlShell {
            shell,
            head_before_boundary,
            scripts_before_boundary,
            head_after_boundary: Vec::new(),
            scripts_after_boundary: Vec::new(),
            before_content: Vec::new(),
            after_content: Vec::new(),
            content: String::new(),
            root_id: root_id.to_owned(),
            path_prefix: path_prefix.to_owned(),
        };
        assert(views(r.head_after_boundary@) == Seq::<Seq<char>>::empty());
        assert(views(r.scripts_after_boundary@) == Seq::<Seq<char>>::empty());
        assert(views(r.before_content@) == Seq::<Seq<char>>::empty());
        assert(views(r.after_content@) == Seq::<Seq<char>>::empty());
        assert(views(r.scripts_before_boundary@) == HtmlShellView::initial(
            shell@,
            root_id@,
            render_cfg_json@,
            path_prefix@,
            testing,
            use_reload_server,
            opt_view(reload_host),
            opt_view(reload_port),
        ).scripts_before_boundary);
        assert(r@ =~= HtmlShellView::initial(
            shell@,
            root_id@,
            render_cfg_json@,
            path_prefix@,
            testing,
            use_reload_server,
            opt_view(reload_host),
            opt_view(reload_port),
        ));
        r
    }

    /// Initializes the HTML shell by serializing the render configuration to
    /// JSON and interpolating the necessary scripts (see
    /// [`HtmlShell::new_with_render_cfg`]).
    pub fn new(
        shell: String,
        root_id: &str,
        render_cfg: &HashMap<String, String>,
        path_prefix: &str,
        testing: bool,
        use_reload_server: bool,
        reload_host: Option<String>,
        reload_port: Option<String>,
    ) -> (r: Self)
        ensures
            exists|entries: StringEntries|
                keys_distinct(entries) && to_map(entries) == render_cfg@ && #[trigger] r@.is_initial(
                    shell@,
                    root_id@,
                    json_object(entries),
                    path_prefix@,
                    testing,
                    use_reload_server,
                    opt_view(reload_host),
                    opt_view(reload_port),
                ),
    {
        let cfg = render_cfg_to_json(render_cfg);
        let ghost entries = choose|entries: StringEntries|
            keys_distinct(entries) && to_map(entries) == render_cfg@ && cfg@ == json_object(entries);
        let ghost host_v = opt_view(reload_host);
        let ghost port_v = opt_view(reload_port);
        let r = Self::new_with_render_cfg(
            shell,
            root_id,
            cfg.as_str(),
            path_prefix,
            testing,
            use_reload_server,
            reload_host,
            reload_port,
        );
        assert(r@.is_initial(
            shell@,
            root_id@,
            json_object(entries),
            path_prefix@,
            testing,
            use_reload_server,
            host_v,
            port_v,
        ));
        r
    }

    /// Interpolates page data and global state into the shell: the escaped
    /// initial state (or `None`) after the boundary, the escaped global state
    /// (or `None`) before it, the page's head after the boundary and its
    /// content as the content.
    pub fn page_data(self, page_data: &PageData, global_state: &Option<String>) -> (r: Self)
        ensures
            r@ == (HtmlShellView {
                scripts_after_boundary: self@.scripts_after_boundary.push(
                    initial_state_script(
                        match page_data.state {
                            Some(s) => escape_page_data_spec(s@),
                            None => "None"@,
                        },
                    ),
                ),
                scripts_before_boundary: self@.scripts_before_boundary.push(
                    global_state_script(
                        match *global_state {
                            Some(s) => escape_page_data_spec(s@),
                            None => "None"@,
                        },
                    ),
                ),
                head_after_boundary: self@.head_after_boundary.push(page_data.head@),
                content: page_data.content@,
                ..self@
            }),
    {
        let mut s = self;
        let initial_state = match &page_data.state {
            Some(state) => escape_page_data(state.as_str()),
            None => "None".to_owned(),
        };
        let global = match global_state {
            Some(state) => escape_page_data(state.as_str()),
            None => "None".to_owned(),
        };
        s.scripts_after_boundary.push(
            concat3("window.__PERSEUS_INITIAL_STATE = `", initial_state.as_str(), "`;"),
        );
        s.scripts_before_boundary.push(
            concat3("window.__PERSEUS_GLOBAL_STATE = `", global.as_str(), "`;"),
        );
        s.head_after_boundary.push(page_data.head.clone());
        s.content = page_data.content.clone();
        proof {
            assert(views(s.scripts_after_boundary@) == views(self.scripts_after_boundary@).push(
                s.scripts_after_boundary@.last()@,
            ));
            assert(views(s.scripts_before_boundary@) == views(self.scripts_before_boundary@).push(
                s.scripts_before_boundary@.last()@,
            ));
            assert(views(s.head_after_boundary@) == views(self.head_after_boundary@).push(
                page_data.head@,
            ));
        }
        s
    }

    /// Interpolates a fallback for locale redirection pages such that, even
    /// if JavaScript (or Wasm) is disabled, the user will still be redirected.
    pub fn locale_redirection_fallback(self, redirect_url: &str) -> (r: Self)
        ensures
            r@ == (HtmlShellView {
                head_after_boundary: self@.head_after_boundary.push(noscript_redirect(redirect_url@)),
                scripts_after_boundary: self@.scripts_after_boundary.push(
                    js_redirect_script(redirect_url@),
                ),
                ..self@
            }),
    {
        let mut s = self;
        s.head_after_boundary.push(concat3("<noscript>\n        <meta http-equiv=\"refresh\" content=\"0; url=", redirect_url, "\" />\n    </noscript>"));
        s.scripts_after_boundary.push(concat3("\n        function wasmSupported() {\n            try {\n                if (typeof WebAssembly === \"object\"\n                    && typeof WebAssembly.instantiate === \"function\") {\n                    const module = new WebAssembly.Module(Uint8Array.of(0x0, 0x61, 0x73, 0x6d, 0x01, 0x00, 0x00, 0x00));\n                    if (module instanceof WebAssembly.Module) {\n                        return new WebAssembly.Instance(module) instanceof WebAssembly.Instance;\n                    }\n                }\n            } catch (e) {}\n            return false;\n        }\n\n        if (!wasmSupported()) {\n            window.location.replace(\"", redirect_url, "\");\n        }\n            "));
        proof {
            assert(views(s.head_after_boundary@) == views(self.head_after_boundary@).push(
                noscript_redirect(redirect_url@),
            ));
            assert(views(s.scripts_after_boundary@) == views(self.scripts_after_boundary@).push(
                js_redirect_script(redirect_url@),
            ));
        }
        s
    }

    /// Interpolates an error page into the shell: the error page's data
    /// (serialized to JSON) as an `error-` initial state after the boundary,
    /// and the error's HTML as the content.
    pub fn error_page(self, error_page_data_json: &str, error_html: &str) -> (r: Self)
        ensures
            r@ == (HtmlShellView {
                scripts_after_boundary: self@.scripts_after_boundary.push(
                    error_state_script(error_page_data_json@),
                ),
                content: error_html@,
                ..self@
            }),
    {
        let mut s = self;
        let escaped = escape_page_data(error_page_data_json);
        s.scripts_after_boundary.push(
            concat3("window.__PERSEUS_INITIAL_STATE = `error-", escaped.as_str(), "`;"),
        );
        s.content = error_html.to_owned();
        proof {
            assert(views(s.scripts_after_boundary@) == views(self.scripts_after_boundary@).push(
                error_state_script(error_page_data_json@),
            ));
        }
        s
    }

    /// Renders the shell with everything interpolated in the correct places.
    pub fn to_html(&self) -> (r: String)
        ensures
            r@ == self@.html(),
    {
        proof {
            reveal_strlit("<head>");
            reveal_strlit("</head>");
            reveal_strlit("<body>");
            reveal_strlit("</body>");
            reveal_strlit("<div id=\"");
            reveal_strlit("<div id='");
        }
        let head_start = join_strings(&self.head_before_boundary, "\n");
        let mut head_end = concat3(
            "\n            <script type=\"module\">",
            join_strings(&self.scripts_before_boundary, "\n").as_str(),
            "</script>\n            <!--PERSEUS_INTERPOLATED_HEAD_BEGINS-->\n            ",
        );
        head_end.append(join_strings(&self.head_after_boundary, "\n").as_str());
        head_end.append("\n            <script>");
        head_end.append(join_strings(&self.scripts_after_boundary, "\n").as_str());
        head_end.append("</script>\n            ");
        let head_open = concat3("<head>", head_start.as_str(), "");
        let head_close = concat3(head_end.as_str(), "</head>", "");
        let s1 = replace_str(self.shell.as_str(), "<head>", head_open.as_str());
        let s2 = replace_str(s1.as_str(), "</head>", head_close.as_str());
        let body_start = join_strings(&self.before_content, "\n");
        let body_end = join_strings(&self.after_content, "\n");
        let body_open = concat3("<body>", body_start.as_str(), "");
        let body_close = concat3(body_end.as_str(), "</body>", "");
        let s3 = replace_str(s2.as_str(), "<body>", body_open.as_str());
        let s4 = replace_str(s3.as_str(), "</body>", body_close.as_str());
        let double = concat3("<div id=\"", self.root_id.as_str(), "\">");
        let single = concat3("<div id='", self.root_id.as_str(), "'>");
        let mut replacement = concat3(
            double.as_str(),
            "<div id=\"__perseus_content_initial\" class=\"__perseus_content\">",
            self.content.as_str(),
        );
        replacement.append("</div>");
        let s5 = replace_str(s4.as_str(), double.as_str(), replacement.as_str());
        let r = replace_str(s5.as_str(), single.as_str(), replacement.as_str());
        proof {
            assert(""@ == Seq::<char>::empty()) by {
                reveal_strlit("");
            }
            assert(head_open@ == "<head>"@ + join(self@.head_before_boundary, "\n"@));
            assert(head_close@ == self@.head_end() + "</head>"@);
        }
        r
    }
}

/// `replace_all` passes over a prefix that never holds the pattern's first
/// character.
pub proof fn lemma_replace_plain_prefix(a: Seq<char>, t: Seq<char>, pat: Seq<char>, rep: Seq<char>)
    requires
        pat.len() > 0,
        !a.contains(pat[0]),
    ensures
        replace_all(a + t, pat, rep) == a + replace_all(t, pat, rep),
    decreases a.len(),
{
    if a.len() == 0 {
        assert(a + t =~= t);
        assert(a + replace_all(t, pat, rep) =~= replace_all(t, pat, rep));
    } else {
        let s = a + t;
        assert(s[0] == a[0]);
        assert(a.contains(a[0]));
        let rest = a.skip(1);
        assert(!rest.contains(pat[0])) by {
            if rest.contains(pat[0]) {
                let j = choose|j: int| 0 <= j < rest.len() && rest[j] == pat[0];
                assert(a[j + 1] == pat[0]);
            }
        }
        assert(s.skip(1) =~= rest + t);
        lemma_replace_plain_prefix(rest, t, pat, rep);
        if s.len() < pat.len() {
            assert(t.len() < pat.len());
        } else {
            assert(s.take(pat.len() as int)[0] != pat[0]);
        }
        assert(seq![a[0]] + rest =~= a);
        assert(seq![a[0]] + (rest + replace_all(t, pat, rep)) =~= a + replace_all(t, pat, rep));
    }
}

/// `replace_all` passes over the first character of a text where the
/// pattern cannot start there (it differs from the text at some position).
pub proof fn lemma_replace_skip_char(s: Seq<char>, pat: Seq<char>, rep: Seq<char>, k: int)
    requires
        0 <= k < pat.len(),
        k < s.len(),
        s[k] != pat[k],
    ensures
        replace_all(s, pat, rep) == seq![s[0]] + replace_all(s.skip(1), pat, rep),
{
    if s.len() < pat.len() {
        assert(s.skip(1).len() < pat.len());
        assert(seq![s[0]] + s.skip(1) =~= s);
    } else {
        assert(s.take(pat.len() as int)[k] != pat[k]);
    }
}

/// `replace_all` replaces a match at the start of the text.
pub proof fn lemma_replace_leading_match(m: Seq<char>, t: Seq<char>, rep: Seq<char>)
    requires
        m.len() > 0,
    ensures
        replace_all(m + t, m, rep) == rep + replace_all(t, m, rep),
{
    assert((m + t).take(m.len() as int) =~= m);
    assert((m + t).skip(m.len() as int) =~= t);
}

/// `replace_all` leaves a text alone where the only `<` is its first
/// character and the pattern, which starts with `<`, differs from the text at
/// position `k`.
proof fn lemma_replace_one_lt(s: Seq<char>, pat: Seq<char>, rep: Seq<char>, k: int)
    requires
        pat.len() > 0,
        pat[0] == '<',
        0 <= k < pat.len(),
        k < s.len(),
        s[k] != pat[k],
        !s.skip(1).contains('<'),
    ensures
        replace_all(s, pat, rep) == s,
{
    lemma_replace_skip_char(s, pat, rep, k);
    lemma_replace_absent(s.skip(1), pat, rep);
    assert(seq![s[0]] + s.skip(1) =~= s);
}

/// `s` holds no `<`.
pub open spec fn no_markup(s: Seq<char>) -> bool {
    !s.contains('<')
}

proof fn lemma_no_markup_concat(x: Seq<char>, y: Seq<char>)
    requires
        no_markup(x),
        no_markup(y),
    ensures
        no_markup(x + y),
{
    if (x + y).contains('<') {
        let j = choose|j: int| 0 <= j < (x + y).len() && (x + y)[j] == '<';
        if j < x.len() {
            assert(x[j] == '<');
        } else {
            assert(y[j - x.len()] == '<');
        }
    }
}

/// The content is placed inside the root element: for a shell that is plain
/// text around the root element written with double quotes (and a root ID
/// and content without markup), the rendered HTML is that text with the root
/// element followed by the content wrapper holding the page's content.
pub proof fn law_content_in_root_element(v: HtmlShellView, a: Seq<char>, b: Seq<char>)
    requires
        v.shell == a + v.root_div_double() + b,
        no_markup(a),
        no_markup(b),
        no_markup(v.root_id),
        no_markup(v.content),
    ensures
        v.html() == a + v.root_replacement() + b,
{
    reveal_strlit("<div id=\"");
    reveal_strlit("\">");
    reveal_strlit("<div id='");
    reveal_strlit("'>");
    reveal_strlit("<div id=\"__perseus_content_initial\" class=\"__perseus_content\">");
    reveal_strlit("</div>");
    reveal_strlit("<head>");
    reveal_strlit("</head>");
    reveal_strlit("<body>");
    reveal_strlit("</body>");
    let d = v.root_div_double();
    let sg = v.root_div_single();
    let r = v.root_replacement();
    let w = "<div id=\"__perseus_content_initial\" class=\"__perseus_content\">"@;
    let close = "</div>"@;
    // The root element holds a `<` at its start only.
    let d_open = "<div id=\""@;
    let d_close = "\">"@;
    assert(d == d_open + v.root_id + d_close);
    assert(no_markup(d_open.skip(1)));
    assert(no_markup(d_close));
    lemma_no_markup_concat(d_open.skip(1), v.root_id);
    lemma_no_markup_concat(d_open.skip(1) + v.root_id, d_close);
    assert(d.skip(1) =~= d_open.skip(1) + v.root_id + d_close);
    lemma_no_markup_concat(d.skip(1), b);
    assert((d + b).skip(1) =~= d.skip(1) + b);
    // The head and body markers leave the shell alone.
    let db = d + b;
    assert(db[0] == '<' && db[1] == 'd');
    let s0 = a + db;
    assert(v.shell =~= s0);
    let x1 = "<head>"@ + join(v.head_before_boundary, "\n"@);
    lemma_replace_plain_prefix(a, db, "<head>"@, x1);
    lemma_replace_one_lt(db, "<head>"@, x1, 1);
    let x2 = v.head_end() + "</head>"@;
    lemma_replace_plain_prefix(a, db, "</head>"@, x2);
    lemma_replace_one_lt(db, "</head>"@, x2, 1);
    let x3 = "<body>"@ + join(v.before_content, "\n"@);
    lemma_replace_plain_prefix(a, db, "<body>"@, x3);
    lemma_replace_one_lt(db, "<body>"@, x3, 1);
    let x4 = join(v.after_content, "\n"@) + "</body>"@;
    lemma_replace_plain_prefix(a, db, "</body>"@, x4);
    lemma_replace_one_lt(db, "</body>"@, x4, 1);
    // The root element is replaced.
    lemma_replace_plain_prefix(a, db, d, r);
    lemma_replace_leading_match(d, b, r);
    lemma_replace_absent(b, d, r);
    let s5 = a + (r + b);
    assert(replace_all(s0, d, r) == s5);
    // Nothing in the replacement matches the single-quoted root element.
    assert(sg[0] == '<' && sg[1] == 'd' && sg[8] == '\'');
    let tail = close + b;
    assert(no_markup(close.skip(1)));
    lemma_no_markup_concat(close.skip(1), b);
    assert(tail.skip(1) =~= close.skip(1) + b);
    lemma_replace_one_lt(tail, sg, r, 1);
    lemma_replace_plain_prefix(v.content, tail, sg, r);
    let wt = w + (v.content + tail);
    assert(no_markup(w.skip(1)));
    assert(wt.skip(1) =~= w.skip(1) + (v.content + tail));
    lemma_replace_skip_char(wt, sg, r, 8);
    lemma_replace_plain_prefix(w.skip(1), v.content + tail, sg, r);
    assert(seq![wt[0]] + (w.skip(1) + (v.content + tail)) =~= wt);
    let rb = d + wt;
    assert(r + b =~= rb);
    assert(rb.skip(1) =~= d.skip(1) + wt);
    lemma_replace_skip_char(rb, sg, r, 8);
    lemma_replace_plain_prefix(d.skip(1), wt, sg, r);
    assert(seq![rb[0]] + (d.skip(1) + wt) =~= rb);
    lemma_replace_plain_prefix(a, r + b, sg, r);
    assert(a + (r + b) =~= a + r + b);
}

/// The content is placed inside a root element written with single quotes
/// too: for a shell that is plain text around it (and a root ID without
/// markup), the rendered HTML is that text with the root element (in double
/// quotes) followed by the content wrapper holding the page's content.
pub proof fn law_content_in_single_quoted_root_element(v: HtmlShellView, a: Seq<char>, b: Seq<char>)
    requires
        v.shell == a + v.root_div_single() + b,
        no_markup(a),
        no_markup(b),
        no_markup(v.root_id),
    ensures
        v.html() == a + v.root_replacement() + b,
{
    reveal_strlit("<div id=\"");
    reveal_strlit("\">");
    reveal_strlit("<div id='");
    reveal_strlit("'>");
    reveal_strlit("<head>");
    reveal_strlit("</head>");
    reveal_strlit("<body>");
    reveal_strlit("</body>");
    let d = v.root_div_double();
    let sg = v.root_div_single();
    let r = v.root_replacement();
    let s_open = "<div id='"@;
    let s_close = "'>"@;
    assert(sg == s_open + v.root_id + s_close);
    assert(no_markup(s_open.skip(1)));
    assert(no_markup(s_close));
    lemma_no_markup_concat(s_open.skip(1), v.root_id);
    lemma_no_markup_concat(s_open.skip(1) + v.root_id, s_close);
    assert(sg.skip(1) =~= s_open.skip(1) + v.root_id + s_close);
    lemma_no_markup_concat(sg.skip(1), b);
    let sb = sg + b;
    assert(sb.skip(1) =~= sg.skip(1) + b);
    assert(sb[0] == '<' && sb[1] == 'd' && sb[8] == '\'');
    assert(d[0] == '<' && d[8] == '"');
    let s0 = a + sb;
    assert(v.shell =~= s0);
    let x1 = "<head>"@ + join(v.head_before_boundary, "\n"@);
    lemma_replace_plain_prefix(a, sb, "<head>"@, x1);
    lemma_replace_one_lt(sb, "<head>"@, x1, 1);
    let x2 = v.head_end() + "</head>"@;
    lemma_replace_plain_prefix(a, sb, "</head>"@, x2);
    lemma_replace_one_lt(sb, "</head>"@, x2, 1);
    let x3 = "<body>"@ + join(v.before_content, "\n"@);
    lemma_replace_plain_prefix(a, sb, "<body>"@, x3);
    lemma_replace_one_lt(sb, "<body>"@, x3, 1);
    let x4 = join(v.after_content, "\n"@) + "</body>"@;
    lemma_replace_plain_prefix(a, sb, "</body>"@, x4);
    lemma_replace_one_lt(sb, "</body>"@, x4, 1);
    lemma_replace_plain_prefix(a, sb, d, r);
    lemma_replace_one_lt(sb, d, r, 8);
    lemma_replace_plain_prefix(a, sb, sg, r);
    lemma_replace_leading_match(sg, b, r);
    lemma_replace_absent(b, sg, r);
    assert(a + (r + b) =~= a + r + b);
}

} // verus!
