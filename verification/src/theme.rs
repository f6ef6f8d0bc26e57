//! The theme store: the built-in assets and page template, and the files of
//! a theme directory that take their place.

use vstd::prelude::*;
use vstd::utf8::encode_utf8;
use crate::text::same_text;

verus! {

/// A file of the site: its path below the root of the site and its bytes.
#[derive(Debug)]
pub struct SiteFile {
    /// The path, with `/` between its parts.
    pub path: String,
    /// The content.
    pub content: Vec<u8>,
}

impl View for SiteFile {
    type V = (Seq<char>, Seq<u8>);

    open spec fn view(&self) -> (Seq<char>, Seq<u8>) {
        (self.path@, self.content@)
    }
}

impl Clone for SiteFile {
    fn clone(&self) -> (copy: SiteFile)
        ensures
            copy@ == self@,
    {
        SiteFile { path: self.path.clone(), content: copy_bytes(&self.content) }
    }
}

/// The values of a list of files, in order.
pub open spec fn file_views(files: Seq<SiteFile>) -> Seq<(Seq<char>, Seq<u8>)> {
    files.map_values(|file: SiteFile| file@)
}

/// The built-in page template.
pub open spec fn default_template_text() -> Seq<char> {
    "<!DOCTYPE html>\n\
    <html lang=\"{{ language }}\">\n\
    <head>\n\
    <meta charset=\"UTF-8\">\n\
    <title>{{ title }}</title>\n\
    <meta name=\"description\" content=\"{{ description }}\">\n\
    <link rel=\"shortcut icon\" href=\"{{ path_to_root }}{{ favicon }}\">\n\
    <link rel=\"stylesheet\" href=\"{{ path_to_root }}app.css\">\n\
    </head>\n\
    <body data-languages=\"{{ lang_list }}\">\n\
    <nav class=\"toc-wrapper\">\n\
    {{#toc}}{{/toc}}\n\
    </nav>\n\
    <main class=\"content\">\n\
    {{{ content }}}\n\
    </main>\n\
    <script src=\"{{ path_to_root }}app.js\"></script>\n\
    </body>\n\
    </html>\n"@
}

/// The built-in stylesheet.
pub open spec fn default_stylesheet_text() -> Seq<char> {
    "body { margin: 0; font-family: sans-serif; }\n\
    .toc-wrapper { position: fixed; top: 0; bottom: 0; width: 16em; overflow-y: auto; }\n\
    .toc-wrapper ul { list-style: none; margin: 0; padding-left: 1em; }\n\
    .toc-link { display: block; padding: 0.2em 0; text-decoration: none; }\n\
    .content { margin-left: 17em; padding: 1em; }\n\
    pre.highlight { padding: 1em; overflow-x: auto; }\n"@
}

/// The built-in script.
pub open spec fn default_script_text() -> Seq<char> {
    "document.addEventListener('DOMContentLoaded', function () {\n\
    if (window.hljs) {\n\
    document.querySelectorAll('pre.highlight code').forEach(function (block) {\n\
    window.hljs.highlightBlock(block);\n\
    });\n\
    }\n\
    });\n"@
}

/// The built-in icon: a PNG image of one transparent pixel.
pub open spec fn default_icon() -> Seq<u8> {
    seq![
        0x89u8, 0x50u8, 0x4eu8, 0x47u8, 0x0du8, 0x0au8, 0x1au8, 0x0au8, 0x00u8, 0x00u8, 0x00u8,
        0x0du8, 0x49u8, 0x48u8, 0x44u8, 0x52u8, 0x00u8, 0x00u8, 0x00u8, 0x01u8, 0x00u8, 0x00u8,
        0x00u8, 0x01u8, 0x08u8, 0x06u8, 0x00u8, 0x00u8, 0x00u8, 0x1fu8, 0x15u8, 0xc4u8, 0x89u8,
        0x00u8, 0x00u8, 0x00u8, 0x0au8, 0x49u8, 0x44u8, 0x41u8, 0x54u8, 0x78u8, 0x9cu8, 0x63u8,
        0x00u8, 0x01u8, 0x00u8, 0x00u8, 0x05u8, 0x00u8, 0x01u8, 0x0du8, 0x0au8, 0x2du8, 0xb4u8,
        0x00u8, 0x00u8, 0x00u8, 0x00u8, 0x49u8, 0x45u8, 0x4eu8, 0x44u8, 0xaeu8, 0x42u8, 0x60u8,
        0x82u8,
    ]
}

/// The text of the marker file that tells the site's host to serve the files
/// as they are.
pub open spec fn marker_text() -> Seq<char> {
    "This file makes sure that Github Pages doesn't process mdBook's output."@
}

/// The built-in assets: the icon, the stylesheet and the script.
pub open spec fn default_assets() -> Seq<(Seq<char>, Seq<u8>)> {
    seq![
        ("favicon.png"@, default_icon()),
        ("app.css"@, encode_utf8(default_stylesheet_text())),
        ("app.js"@, encode_utf8(default_script_text())),
    ]
}

/// The content of the first of the files that has the given path.
pub open spec fn content_of(files: Seq<(Seq<char>, Seq<u8>)>, path: Seq<char>) -> Option<Seq<u8>>
    decreases files.len(),
{
    if files.len() == 0 {
        None
    } else if files[0].0 == path {
        Some(files[0].1)
    } else {
        content_of(files.drop_first(), path)
    }
}

/// A content, or what a theme directory holds in its place.
pub open spec fn overridden(
    path: Seq<char>,
    content: Seq<u8>,
    theme_files: Seq<(Seq<char>, Seq<u8>)>,
) -> Seq<u8> {
    match content_of(theme_files, path) {
        Some(replacement) => replacement,
        None => content,
    }
}

/// The assets of a theme: the built-in assets, each with the content of the
/// theme file of the same path where there is one. A theme file of another
/// path adds nothing.
pub open spec fn themed_assets(theme_files: Seq<(Seq<char>, Seq<u8>)>) -> Seq<(Seq<char>, Seq<u8>)> {
    default_assets().map_values(
        |asset: (Seq<char>, Seq<u8>)| (asset.0, overridden(asset.0, asset.1, theme_files)),
    )
}

/// The page template of a theme: the theme file `index.hbs` where there is
/// one, the built-in template otherwise.
pub open spec fn themed_template(theme_files: Seq<(Seq<char>, Seq<u8>)>) -> Seq<u8> {
    overridden("index.hbs"@, encode_utf8(default_template_text()), theme_files)
}

/// Whether no two of the files have the same path.
pub open spec fn distinct_paths(files: Seq<(Seq<char>, Seq<u8>)>) -> bool {
    forall|i: int, j: int| 0 <= i < j < files.len() ==> files[i].0 != files[j].0
}

/// Whatever a theme directory holds, the assets of the theme are the
/// built-in ones by their paths, in the same order, and no path occurs
/// twice among them: a theme file replaces a content and never adds a file.
pub proof fn lemma_theme_keeps_paths(theme_files: Seq<(Seq<char>, Seq<u8>)>)
    ensures
        themed_assets(theme_files).len() == default_assets().len(),
        forall|i: int|
            0 <= i < default_assets().len() ==> themed_assets(theme_files)[i].0
                == default_assets()[i].0,
        distinct_paths(themed_assets(theme_files)),
{
    reveal_strlit("app.css");
    reveal_strlit("app.js");
    reveal_strlit("favicon.png");
    assert("app.css"@.len() == 7);
    assert("app.js"@.len() == 6);
    assert("favicon.png"@.len() == 11);
}

/// A theme directory that holds a stylesheet and nothing else changes the
/// stylesheet and nothing else: the icon, the script and the page template
/// are the built-in ones.
pub proof fn lemma_stylesheet_alone(stylesheet: Seq<u8>)
    ensures
        themed_assets(seq![("app.css"@, stylesheet)]) == seq![
            ("favicon.png"@, default_icon()),
            ("app.css"@, stylesheet),
            ("app.js"@, encode_utf8(default_script_text())),
        ],
        themed_template(seq![("app.css"@, stylesheet)]) == encode_utf8(default_template_text()),
{
    let files = seq![("app.css"@, stylesheet)];
    reveal_strlit("app.css");
    reveal_strlit("app.js");
    reveal_strlit("favicon.png");
    reveal_strlit("index.hbs");
    assert("app.css"@.len() == 7);
    assert("app.js"@.len() == 6);
    assert("favicon.png"@.len() == 11);
    assert("index.hbs"@.len() == 9);
    assert(files.drop_first() =~= Seq::<(Seq<char>, Seq<u8>)>::empty());
    assert(content_of(files.drop_first(), "app.js"@) is None);
    assert(content_of(files.drop_first(), "favicon.png"@) is None);
    assert(content_of(files.drop_first(), "index.hbs"@) is None);
    assert(content_of(files, "app.css"@) == Some(stylesheet));
    assert(content_of(files, "app.js"@) is None);
    assert(content_of(files, "favicon.png"@) is None);
    assert(content_of(files, "index.hbs"@) is None);
    assert(themed_assets(files) =~= seq![
        ("favicon.png"@, default_icon()),
        ("app.css"@, stylesheet),
        ("app.js"@, encode_utf8(default_script_text())),
    ]);
}

/// A copy of the bytes.
pub fn copy_bytes(bytes: &Vec<u8>) -> (copy: Vec<u8>)
    ensures
        copy@ == bytes@,
{
    let mut copy: Vec<u8> = Vec::new();
    let mut i: usize = 0;
    while i < bytes.len()
        invariant
            i <= bytes.len(),
            copy@ == bytes@.take(i as int),
        decreases bytes.len() - i,
    {
        copy.push(bytes[i]);
        proof {
            assert(bytes@.take(i + 1) =~= bytes@.take(i as int).push(bytes@[i as int]));
        }
        i += 1;
    }
    proof {
        assert(bytes@.take(bytes@.len() as int) =~= bytes@);
    }
    copy
}

/// The content of the first of the files that has the given path.
pub fn find_content<'a>(files: &'a Vec<SiteFile>, path: &str) -> (found: Option<&'a Vec<u8>>)
    ensures
        found is Some <==> content_of(file_views(files@), path@) is Some,
        found is Some ==> found->0@ == content_of(file_views(files@), path@)->0,
{
    let mut i: usize = 0;
    proof {
        assert(file_views(files@).skip(0) =~= file_views(files@));
    }
    while i < files.len()
        invariant
            i <= files.len(),
            content_of(file_views(files@), path@) == content_of(
                file_views(files@).skip(i as int),
                path@,
            ),
        decreases files.len() - i,
    {
        let ghost rest = file_views(files@).skip(i as int);
        proof {
            assert(rest[0] == files@[i as int]@);
            assert(rest.drop_first() =~= file_views(files@).skip(i + 1));
        }
        if same_text(files[i].path.as_str(), path) {
            return Some(&files[i].content);
        }
        i += 1;
    }
    None
}

fn icon_bytes() -> (bytes: Vec<u8>)
    ensures
        bytes@ == default_icon(),
{
    let bytes = vec![
        0x89u8, 0x50u8, 0x4eu8, 0x47u8, 0x0du8, 0x0au8, 0x1au8, 0x0au8, 0x00u8, 0x00u8, 0x00u8,
        0x0du8, 0x49u8, 0x48u8, 0x44u8, 0x52u8, 0x00u8, 0x00u8, 0x00u8, 0x01u8, 0x00u8, 0x00u8,
        0x00u8, 0x01u8, 0x08u8, 0x06u8, 0x00u8, 0x00u8, 0x00u8, 0x1fu8, 0x15u8, 0xc4u8, 0x89u8,
        0x00u8, 0x00u8, 0x00u8, 0x0au8, 0x49u8, 0x44u8, 0x41u8, 0x54u8, 0x78u8, 0x9cu8, 0x63u8,
        0x00u8, 0x01u8, 0x00u8, 0x00u8, 0x05u8, 0x00u8, 0x01u8, 0x0du8, 0x0au8, 0x2du8, 0xb4u8,
        0x00u8, 0x00u8, 0x00u8, 0x00u8, 0x49u8, 0x45u8, 0x4eu8, 0x44u8, 0xaeu8, 0x42u8, 0x60u8,
        0x82u8,
    ];
    assert(bytes@ =~= default_icon());
    bytes
}

fn template_bytes() -> (bytes: Vec<u8>)
    ensures
        bytes@ == encode_utf8(default_template_text()),
{
    "<!DOCTYPE html>\n\
    <html lang=\"{{ language }}\">\n\
    <head>\n\
    <meta charset=\"UTF-8\">\n\
    <title>{{ title }}</title>\n\
    <meta name=\"description\" content=\"{{ description }}\">\n\
    <link rel=\"shortcut icon\" href=\"{{ path_to_root }}{{ favicon }}\">\n\
    <link rel=\"stylesheet\" href=\"{{ path_to_root }}app.css\">\n\
    </head>\n\
    <body data-languages=\"{{ lang_list }}\">\n\
    <nav class=\"toc-wrapper\">\n\
    {{#toc}}{{/toc}}\n\
    </nav>\n\
    <main class=\"content\">\n\
    {{{ content }}}\n\
    </main>\n\
    <script src=\"{{ path_to_root }}app.js\"></script>\n\
    </body>\n\
    </html>\n".as_bytes_vec()
}

fn stylesheet_bytes() -> (bytes: Vec<u8>)
    ensures
        bytes@ == encode_utf8(default_stylesheet_text()),
{
    "body { margin: 0; font-family: sans-serif; }\n\
    .toc-wrapper { position: fixed; top: 0; bottom: 0; width: 16em; overflow-y: auto; }\n\
    .toc-wrapper ul { list-style: none; margin: 0; padding-left: 1em; }\n\
    .toc-link { display: block; padding: 0.2em 0; text-decoration: none; }\n\
    .content { margin-left: 17em; padding: 1em; }\n\
    pre.highlight { padding: 1em; overflow-x: auto; }\n".as_bytes_vec()
}

fn script_bytes() -> (bytes: Vec<u8>)
    ensures
        bytes@ == encode_utf8(default_script_text()),
{
    "document.addEventListener('DOMContentLoaded', function () {\n\
    if (window.hljs) {\n\
    document.querySelectorAll('pre.highlight code').forEach(function (block) {\n\
    window.hljs.highlightBlock(block);\n\
    });\n\
    }\n\
    });\n".as_bytes_vec()
}

/// What a render pass asks of a theme: the page template, and the files
/// that the site gets as they are.
pub trait Theme: Sized {
    /// The bytes of the page template.
    spec fn template(&self) -> Seq<u8>;

    /// The files that a site gets from the theme, in the order in which they
    /// are written.
    spec fn static_files(&self) -> Seq<(Seq<char>, Seq<u8>)>;

    /// Whether the theme is the one that a project with these files in its
    /// theme directory has.
    spec fn loaded_from(&self, theme_files: Seq<(Seq<char>, Seq<u8>)>) -> bool;

    /// The theme of a project, given the files of its theme directory (none
    /// where it has no such directory).
    fn load_from_context(theme_files: &Vec<SiteFile>) -> (theme: Self)
        ensures
            theme.loaded_from(file_views(theme_files@)),
    ;

    /// The files that a site gets from the theme, in the order in which they
    /// are written.
    fn copy_static_files(&self) -> (files: Vec<SiteFile>)
        ensures
            file_views(files@) == self.static_files(),
    ;

    /// The bytes of the page template.
    fn get_template(&self) -> (template: Vec<u8>)
        ensures
            template@ == self.template(),
    ;
}

/// The theme of a site: its page template and its assets.
#[derive(Debug)]
pub struct HtmlTheme {
    template: Vec<u8>,
    assets: Vec<SiteFile>,
}

impl HtmlTheme {
    /// The assets, in the order in which they are written.
    pub closed spec fn assets(&self) -> Seq<(Seq<char>, Seq<u8>)> {
        file_views(self.assets@)
    }

    /// The built-in assets.
    pub fn load_default_assests() -> (assets: Vec<SiteFile>)
        ensures
            file_views(assets@) == default_assets(),
    {
        let mut assets: Vec<SiteFile> = Vec::new();
        assets.push(SiteFile { path: "favicon.png".to_owned(), content: icon_bytes() });
        assets.push(SiteFile { path: "app.css".to_owned(), content: stylesheet_bytes() });
        assets.push(SiteFile { path: "app.js".to_owned(), content: script_bytes() });
        assert(file_views(assets@) =~= default_assets());
        assets
    }
}

impl Theme for HtmlTheme {
    closed spec fn template(&self) -> Seq<u8> {
        self.template@
    }

    /// The marker file, then the assets.
    open spec fn static_files(&self) -> Seq<(Seq<char>, Seq<u8>)> {
        seq![(".nojekyll"@, encode_utf8(marker_text()))] + self.assets()
    }

    /// Each built-in asset has given way to the theme file of the same path,
    /// and the built-in template to the theme file `index.hbs`. Theme files
    /// of other paths are left out.
    open spec fn loaded_from(&self, theme_files: Seq<(Seq<char>, Seq<u8>)>) -> bool {
        &&& self.assets() == themed_assets(theme_files)
        &&& self.template() == themed_template(theme_files)
    }

    fn load_from_context(theme_files: &Vec<SiteFile>) -> (theme: HtmlTheme) {
        let mut assets = HtmlTheme::load_default_assests();
        let ghost defaults = file_views(assets@);
        let mut i: usize = 0;
        while i < assets.len()
            invariant
                i <= assets.len(),
                assets.len() == defaults.len(),
                defaults == default_assets(),
                forall|k: int|
                    0 <= k < i ==> (#[trigger] assets@[k])@ == (
                        defaults[k].0,
                        overridden(defaults[k].0, defaults[k].1, file_views(theme_files@)),
                    ),
                forall|k: int| i <= k < assets.len() ==> (#[trigger] assets@[k])@ == defaults[k],
            decreases assets.len() - i,
        {
            match find_content(theme_files, assets[i].path.as_str()) {
                Some(replacement) => {
                    let path = assets[i].path.clone();
                    assets.set(i, SiteFile { path, content: copy_bytes(replacement) });
                },
                None => {},
            }
            i += 1;
        }
        assert(file_views(assets@) =~= themed_assets(file_views(theme_files@)));
        let template = match find_content(theme_files, "index.hbs") {
            Some(replacement) => copy_bytes(replacement),
            None => template_bytes(),
        };
        HtmlTheme { template, assets }
    }

    fn copy_static_files(&self) -> (files: Vec<SiteFile>) {
        let mut files: Vec<SiteFile> = Vec::new();
        files.push(
            SiteFile {
                path: ".nojekyll".to_owned(),
                content: "This file makes sure that Github Pages doesn't process mdBook's output."
                    .as_bytes_vec(),
            },
        );
        let mut i: usize = 0;
        while i < self.assets.len()
            invariant
                i <= self.assets.len(),
                files.len() == i + 1,
                files@[0]@ == (".nojekyll"@, encode_utf8(marker_text())),
                forall|k: int| 0 <= k < i ==> (#[trigger] files@[k + 1])@ == self.assets@[k]@,
            decreases self.assets.len() - i,
        {
            files.push(self.assets[i].clone());
            i += 1;
        }
        proof {
            let marker = seq![(".nojekyll"@, encode_utf8(marker_text()))];
            assert(file_views(files@).len() == (marker + self.assets()).len());
            assert forall|k: int| 0 <= k < files@.len() implies file_views(files@)[k] == (marker
                + self.assets())[k] by {
                if k > 0 {
                    assert(files@[(k - 1) + 1]@ == self.assets@[k - 1]@);
                }
            }
            assert(file_views(files@) =~= marker + self.assets());
        }
        files
    }

    fn get_template(&self) -> (template: Vec<u8>) {
        copy_bytes(&self.template)
    }
}

} // verus!
