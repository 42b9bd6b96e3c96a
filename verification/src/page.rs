//! The two pages of the token display: the one that shows the token and the
//! one that says goodbye.

use vstd::prelude::*;
use vstd::string::StringExecFns;
use crate::escape::{escaped, html_escape, law_escaped_is_inert};

verus! {

/// The token page up to the place where the token stands.
pub const PAGE_HEAD: &'static str = r#"<!DOCTYPE html>
<html lang="en">
<head>
    <meta charset="UTF-8">
    <meta name="viewport" content="width=device-width, initial-scale=1.0">
    <title>GitHub Copilot Usage - Access Token</title>
    <style>
        * {
            margin: 0;
            padding: 0;
            box-sizing: border-box;
        }
        body {
            font-family: -apple-system, BlinkMacSystemFont, 'Segoe UI', 'Noto Sans', Helvetica, Arial, sans-serif;
            background-color: #0d1117;
            color: #f0f6fc;
            min-height: 100vh;
            display: flex;
            justify-content: center;
            align-items: center;
            padding: 20px;
        }
        .container {
            background-color: #161b22;
            border-radius: 12px;
            padding: 32px;
            max-width: 600px;
            width: 100%;
            box-shadow: 0 8px 24px rgba(0, 0, 0, 0.4);
        }
        h1 {
            color: #58a6ff;
            margin-bottom: 16px;
            font-size: 24px;
        }
        p {
            color: #8b949e;
            margin-bottom: 24px;
            line-height: 1.5;
        }
        .token-container {
            background-color: #0d1117;
            border: 1px solid #30363d;
            border-radius: 6px;
            padding: 16px;
            margin-bottom: 20px;
            position: relative;
        }
        .token {
            word-break: break-all;
            font-family: ui-monospace, SFMono-Regular, 'SF Mono', Menlo, monospace;
            font-size: 14px;
            color: #f0f6fc;
            user-select: all;
        }
        .btn {
            display: inline-block;
            padding: 12px 24px;
            font-size: 14px;
            font-weight: 600;
            border: none;
            border-radius: 6px;
            cursor: pointer;
            text-decoration: none;
            transition: background-color 0.2s;
            margin-right: 10px;
        }
        .btn-primary {
            background-color: #238636;
            color: #ffffff;
        }
        .btn-primary:hover {
            background-color: #2ea043;
        }
        .btn-secondary {
            background-color: #21262d;
            color: #f0f6fc;
            border: 1px solid #30363d;
        }
        .btn-secondary:hover {
            background-color: #30363d;
        }
        .success {
            display: none;
            color: #3fb950;
            margin-top: 12px;
            font-size: 14px;
        }
        .instructions {
            background-color: #0d1117;
            border: 1px solid #30363d;
            border-radius: 6px;
            padding: 16px;
            margin-top: 24px;
        }
        .instructions h3 {
            color: #f0f6fc;
            margin-bottom: 12px;
            font-size: 16px;
        }
        .instructions ol {
            color: #8b949e;
            padding-left: 20px;
        }
        .instructions li {
            margin-bottom: 8px;
        }
    </style>
</head>
<body>
    <div class="container">
        <h1>&#127881; Authentication Successful!</h1>
        <p>Your GitHub access token has been generated. Copy it below and paste it into the GitHub Copilot Usage app.</p>

        <div class="token-container">
            <code class="token" id="token">"#;

/// The token page from the end of the token on. Copying to the clipboard is
/// done by the button's own handler, so the page holds no script element.
pub const PAGE_TAIL: &'static str = r#"</code>
        </div>

        <div>
            <button class="btn btn-primary" onclick="navigator.clipboard.writeText(document.getElementById('token').textContent).then(function () { var note = document.getElementById('success'); note.style.display = 'block'; setTimeout(function () { note.style.display = 'none'; }, 3000); })">Copy Token</button>
            <a href="/close" class="btn btn-secondary">Close Server</a>
        </div>

        <div class="success" id="success">&#10003; Token copied to clipboard!</div>

        <div class="instructions">
            <h3>Next Steps:</h3>
            <ol>
                <li>Click "Copy Token" to copy the access token</li>
                <li>Go back to the GitHub Copilot Usage app</li>
                <li>Paste the token in the token field</li>
                <li>Click "Save Token" to complete setup</li>
            </ol>
        </div>
    </div>
</body>
</html>"#;

/// The page that confirms that the server is closing.
pub const CLOSE_PAGE: &'static str =
    "<html><body><h1>Server closed. You can close this tab.</h1></body></html>";

/// The page that shows `token`: the fixed text around the escaped token.
pub open spec fn token_page(token: Seq<char>) -> Seq<char> {
    PAGE_HEAD@ + escaped(token) + PAGE_TAIL@
}

/// Renders the page that shows `token`, with a button that copies it and a
/// link that closes the server. The token is text of unknown origin: it is
/// escaped before it goes into the page.
pub fn get_token_page(token: &str) -> (page: String)
    ensures
        page@ == token_page(token@),
{
    let mut page = PAGE_HEAD.to_owned();
    let inert = html_escape(token);
    page.append(inert.as_str());
    page.append(PAGE_TAIL);
    page
}

/// Renders the page that confirms that the server is closing. It is the same
/// every time.
pub fn get_close_page() -> (page: String)
    ensures
        page@ == CLOSE_PAGE@,
{
    CLOSE_PAGE.to_owned()
}

/// Whatever the token holds, the page is the fixed head, then the token's
/// stretch, then the fixed tail, and the token's stretch holds none of the
/// characters with which markup or an attribute value could begin or end.
pub proof fn law_token_is_inert_in_page(token: Seq<char>)
    ensures
        token_page(token).len() == PAGE_HEAD@.len() + escaped(token).len() + PAGE_TAIL@.len(),
        token_page(token).subrange(0, PAGE_HEAD@.len() as int) == PAGE_HEAD@,
        token_page(token).subrange(
            (PAGE_HEAD@.len() + escaped(token).len()) as int,
            token_page(token).len() as int,
        ) == PAGE_TAIL@,
        forall|i: int|
            PAGE_HEAD@.len() <= i < PAGE_HEAD@.len() + escaped(token).len() ==> {
                let c = #[trigger] token_page(token)[i];
                c != '<' && c != '>' && c != '"' && c != '\''
            },
{
    law_escaped_is_inert(token);
    let page = token_page(token);
    let start = PAGE_HEAD@.len() as int;
    assert(page.subrange(0, start) =~= PAGE_HEAD@);
    assert(page.subrange(start + escaped(token).len(), page.len() as int) =~= PAGE_TAIL@);
    assert forall|i: int| start <= i < start + escaped(token).len() implies {
        let c = #[trigger] page[i];
        c != '<' && c != '>' && c != '"' && c != '\''
    } by {
        assert(page[i] == escaped(token)[i - start]);
    }
}

} // verus!
