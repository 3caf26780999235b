//! Web wallpapers: every regular file of the project directory is served
//! inside the offline sandbox; the entry page becomes the wallpaper asset.

use vstd::prelude::*;

use crate::assets::{AssetView, SourceView, ThemeAssetPolicy, ThemeRuntimeAsset};
use crate::error::{theme_error, ThemeError};
use crate::paths::{join_slash, path_extension, path_has_base, LocalPath, PathView};
use crate::text::{ascii_lower, concat, str_eq, to_ascii_lowercase};

verus! {

/// Logical path of the wallpaper asset of every live wallpaper theme.
pub const WALLPAPER_ASSET_PATH: &'static str = "wallpaper-engine/background-video";

/// Most files a Web wallpaper may have.
pub const MAX_WALLPAPER_WEB_FILE_COUNT: usize = 4096;

/// Largest total size of a Web wallpaper, in bytes (512 MiB).
pub const MAX_WALLPAPER_WEB_TOTAL_SIZE: u64 = 536870912;

/// A regular file found below a Web wallpaper directory.
#[derive(Debug, Clone)]
pub struct WebFile {
    /// Its canonical path.
    pub path: LocalPath,
    /// Its size in bytes.
    pub size: u64,
}

/// The MIME type a Web wallpaper file is served with, by lowercase extension.
pub open spec fn web_mime(ext: Seq<char>) -> Seq<char> {
    if ext == "html"@ || ext == "htm"@ {
        "text/html; charset=utf-8"@
    } else if ext == "js"@ || ext == "mjs"@ {
        "text/javascript; charset=utf-8"@
    } else if ext == "css"@ {
        "text/css; charset=utf-8"@
    } else if ext == "json"@ {
        "application/json"@
    } else if ext == "png"@ {
        "image/png"@
    } else if ext == "jpg"@ || ext == "jpeg"@ {
        "image/jpeg"@
    } else if ext == "gif"@ {
        "image/gif"@
    } else if ext == "webp"@ {
        "image/webp"@
    } else if ext == "svg"@ {
        "image/svg+xml"@
    } else if ext == "mp3"@ {
        "audio/mpeg"@
    } else if ext == "ogg"@ {
        "audio/ogg"@
    } else if ext == "wav"@ {
        "audio/wav"@
    } else if ext == "mp4"@ || ext == "m4v"@ {
        "video/mp4"@
    } else if ext == "webm"@ {
        "video/webm"@
    } else if ext == "woff"@ {
        "font/woff"@
    } else if ext == "woff2"@ {
        "font/woff2"@
    } else if ext == "ttf"@ {
        "font/ttf"@
    } else {
        "application/octet-stream"@
    }
}

/// The MIME table of Web wallpaper files: each known lowercase extension
/// is served with its type (pages, scripts and style sheets as UTF-8 text),
/// and every other extension as opaque bytes.
pub proof fn law_web_mime_table(ext: Seq<char>)
    ensures
        web_mime("html"@) == "text/html; charset=utf-8"@,
        web_mime("htm"@) == "text/html; charset=utf-8"@,
        web_mime("js"@) == "text/javascript; charset=utf-8"@,
        web_mime("mjs"@) == "text/javascript; charset=utf-8"@,
        web_mime("css"@) == "text/css; charset=utf-8"@,
        web_mime("json"@) == "application/json"@,
        web_mime("png"@) == "image/png"@,
        web_mime("jpg"@) == "image/jpeg"@,
        web_mime("jpeg"@) == "image/jpeg"@,
        web_mime("gif"@) == "image/gif"@,
        web_mime("webp"@) == "image/webp"@,
        web_mime("svg"@) == "image/svg+xml"@,
        web_mime("mp3"@) == "audio/mpeg"@,
        web_mime("ogg"@) == "audio/ogg"@,
        web_mime("wav"@) == "audio/wav"@,
        web_mime("mp4"@) == "video/mp4"@,
        web_mime("m4v"@) == "video/mp4"@,
        web_mime("webm"@) == "video/webm"@,
        web_mime("woff"@) == "font/woff"@,
        web_mime("woff2"@) == "font/woff2"@,
        web_mime("ttf"@) == "font/ttf"@,
        ext != "html"@ && ext != "htm"@ && ext != "js"@ && ext != "mjs"@ && ext != "css"@ && ext != "json"@ && ext != "png"@ && ext != "jpg"@ && ext != "jpeg"@ && ext != "gif"@ && ext != "webp"@ && ext != "svg"@ && ext != "mp3"@ && ext != "ogg"@ && ext != "wav"@ && ext != "mp4"@ && ext != "m4v"@ && ext != "webm"@ && ext != "woff"@ && ext != "woff2"@ && ext != "ttf"@ ==> web_mime(ext) == "application/octet-stream"@,
{
    assert(web_mime("html"@) == "text/html; charset=utf-8"@) by {
        reveal_strlit("html");

    }
    assert(web_mime("htm"@) == "text/html; charset=utf-8"@) by {
        reveal_strlit("html");
        reveal_strlit("htm");
        assert("htm"@.len() != "html"@.len());
    }
    assert(web_mime("js"@) == "text/javascript; charset=utf-8"@) by {
        reveal_strlit("html");
        reveal_strlit("htm");
        reveal_strlit("js");
        assert("js"@.len() != "html"@.len());
        assert("js"@.len() != "htm"@.len());
    }
    assert(web_mime("mjs"@) == "text/javascript; charset=utf-8"@) by {
        reveal_strlit("html");
        reveal_strlit("htm");
        reveal_strlit("js");
        reveal_strlit("mjs");
        assert("mjs"@.len() != "html"@.len());
        assert("mjs"@[0] != "htm"@[0]);
        assert("mjs"@.len() != "js"@.len());
    }
    assert(web_mime("css"@) == "text/css; charset=utf-8"@) by {
        reveal_strlit("html");
        reveal_strlit("htm");
        reveal_strlit("js");
        reveal_strlit("mjs");
        reveal_strlit("css");
        assert("css"@.len() != "html"@.len());
        assert("css"@[0] != "htm"@[0]);
        assert("css"@.len() != "js"@.len());
        assert("css"@[0] != "mjs"@[0]);
    }
    assert(web_mime("json"@) == "application/json"@) by {
        reveal_strlit("html");
        reveal_strlit("htm");
        reveal_strlit("js");
        reveal_strlit("mjs");
        reveal_strlit("css");
        reveal_strlit("json");
        assert("json"@[0] != "html"@[0]);
        assert("json"@.len() != "htm"@.len());
        assert("json"@.len() != "js"@.len());
        assert("json"@.len() != "mjs"@.len());
        assert("json"@.len() != "css"@.len());
    }
    assert(web_mime("png"@) == "image/png"@) by {
        reveal_strlit("html");
        reveal_strlit("htm");
        reveal_strlit("js");
        reveal_strlit("mjs");
        reveal_strlit("css");
        reveal_strlit("json");
        reveal_strlit("png");
        assert("png"@.len() != "html"@.len());
        assert("png"@[0] != "htm"@[0]);
        assert("png"@.len() != "js"@.len());
        assert("png"@[0] != "mjs"@[0]);
        assert("png"@[0] != "css"@[0]);
        assert("png"@.len() != "json"@.len());
    }
    assert(web_mime("jpg"@) == "image/jpeg"@) by {
        reveal_strlit("html");
        reveal_strlit("htm");
        reveal_strlit("js");
        reveal_strlit("mjs");
        reveal_strlit("css");
        reveal_strlit("json");
        reveal_strlit("png");
        reveal_strlit("jpg");
        assert("jpg"@.len() != "html"@.len());
        assert("jpg"@[0] != "htm"@[0]);
        assert("jpg"@.len() != "js"@.len());
        assert("jpg"@[0] != "mjs"@[0]);
        assert("jpg"@[0] != "css"@[0]);
        assert("jpg"@.len() != "json"@.len());
        assert("jpg"@[0] != "png"@[0]);
    }
    assert(web_mime("jpeg"@) == "image/jpeg"@) by {
        reveal_strlit("html");
        reveal_strlit("htm");
        reveal_strlit("js");
        reveal_strlit("mjs");
        reveal_strlit("css");
        reveal_strlit("json");
        reveal_strlit("png");
        reveal_strlit("jpg");
        reveal_strlit("jpeg");
        assert("jpeg"@[0] != "html"@[0]);
        assert("jpeg"@.len() != "htm"@.len());
        assert("jpeg"@.len() != "js"@.len());
        assert("jpeg"@.len() != "mjs"@.len());
        assert("jpeg"@.len() != "css"@.len());
        assert("jpeg"@[1] != "json"@[1]);
        assert("jpeg"@.len() != "png"@.len());
        assert("jpeg"@.len() != "jpg"@.len());
    }
    assert(web_mime("gif"@) == "image/gif"@) by {
        reveal_strlit("html");
        reveal_strlit("htm");
        reveal_strlit("js");
        reveal_strlit("mjs");
        reveal_strlit("css");
        reveal_strlit("json");
        reveal_strlit("png");
        reveal_strlit("jpg");
        reveal_strlit("jpeg");
        reveal_strlit("gif");
        assert("gif"@.len() != "html"@.len());
        assert("gif"@[0] != "htm"@[0]);
        assert("gif"@.len() != "js"@.len());
        assert("gif"@[0] != "mjs"@[0]);
        assert("gif"@[0] != "css"@[0]);
        assert("gif"@.len() != "json"@.len());
        assert("gif"@[0] != "png"@[0]);
        assert("gif"@[0] != "jpg"@[0]);
        assert("gif"@.len() != "jpeg"@.len());
    }
    assert(web_mime("webp"@) == "image/webp"@) by {
        reveal_strlit("html");
        reveal_strlit("htm");
        reveal_strlit("js");
        reveal_strlit("mjs");
        reveal_strlit("css");
        reveal_strlit("json");
        reveal_strlit("png");
        reveal_strlit("jpg");
        reveal_strlit("jpeg");
        reveal_strlit("gif");
        reveal_strlit("webp");
        assert("webp"@[0] != "html"@[0]);
        assert("webp"@.len() != "htm"@.len());
        assert("webp"@.len() != "js"@.len());
        assert("webp"@.len() != "mjs"@.len());
        assert("webp"@.len() != "css"@.len());
        assert("webp"@[0] != "json"@[0]);
        assert("webp"@.len() != "png"@.len());
        assert("webp"@.len() != "jpg"@.len());
        assert("webp"@[0] != "jpeg"@[0]);
        assert("webp"@.len() != "gif"@.len());
    }
    assert(web_mime("svg"@) == "image/svg+xml"@) by {
        reveal_strlit("html");
        reveal_strlit("htm");
        reveal_strlit("js");
        reveal_strlit("mjs");
        reveal_strlit("css");
        reveal_strlit("json");
        reveal_strlit("png");
        reveal_strlit("jpg");
        reveal_strlit("jpeg");
        reveal_strlit("gif");
        reveal_strlit("webp");
        reveal_strlit("svg");
        assert("svg"@.len() != "html"@.len());
        assert("svg"@[0] != "htm"@[0]);
        assert("svg"@.len() != "js"@.len());
        assert("svg"@[0] != "mjs"@[0]);
        assert("svg"@[0] != "css"@[0]);
        assert("svg"@.len() != "json"@.len());
        assert("svg"@[0] != "png"@[0]);
        assert("svg"@[0] != "jpg"@[0]);
        assert("svg"@.len() != "jpeg"@.len());
        assert("svg"@[0] != "gif"@[0]);
        assert("svg"@.len() != "webp"@.len());
    }
    assert(web_mime("mp3"@) == "audio/mpeg"@) by {
        reveal_strlit("html");
        reveal_strlit("htm");
        reveal_strlit("js");
        reveal_strlit("mjs");
        reveal_strlit("css");
        reveal_strlit("json");
        reveal_strlit("png");
        reveal_strlit("jpg");
        reveal_strlit("jpeg");
        reveal_strlit("gif");
        reveal_strlit("webp");
        reveal_strlit("svg");
        reveal_strlit("mp3");
        assert("mp3"@.len() != "html"@.len());
        assert("mp3"@[0] != "htm"@[0]);
        assert("mp3"@.len() != "js"@.len());
        assert("mp3"@[1] != "mjs"@[1]);
        assert("mp3"@[0] != "css"@[0]);
        assert("mp3"@.len() != "json"@.len());
        assert("mp3"@[0] != "png"@[0]);
        assert("mp3"@[0] != "jpg"@[0]);
        assert("mp3"@.len() != "jpeg"@.len());
        assert("mp3"@[0] != "gif"@[0]);
        assert("mp3"@.len() != "webp"@.len());
        assert("mp3"@[0] != "svg"@[0]);
    }
    assert(web_mime("ogg"@) == "audio/ogg"@) by {
        reveal_strlit("html");
        reveal_strlit("htm");
        reveal_strlit("js");
        reveal_strlit("mjs");
        reveal_strlit("css");
        reveal_strlit("json");
        reveal_strlit("png");
        reveal_strlit("jpg");
        reveal_strlit("jpeg");
        reveal_strlit("gif");
        reveal_strlit("webp");
        reveal_strlit("svg");
        reveal_strlit("mp3");
        reveal_strlit("ogg");
        assert("ogg"@.len() != "html"@.len());
        assert("ogg"@[0] != "htm"@[0]);
        assert("ogg"@.len() != "js"@.len());
        assert("ogg"@[0] != "mjs"@[0]);
        assert("ogg"@[0] != "css"@[0]);
        assert("ogg"@.len() != "json"@.len());
        assert("ogg"@[0] != "png"@[0]);
        assert("ogg"@[0] != "jpg"@[0]);
        assert("ogg"@.len() != "jpeg"@.len());
        assert("ogg"@[0] != "gif"@[0]);
        assert("ogg"@.len() != "webp"@.len());
        assert("ogg"@[0] != "svg"@[0]);
        assert("ogg"@[0] != "mp3"@[0]);
    }
    assert(web_mime("wav"@) == "audio/wav"@) by {
        reveal_strlit("html");
        reveal_strlit("htm");
        reveal_strlit("js");
        reveal_strlit("mjs");
        reveal_strlit("css");
        reveal_strlit("json");
        reveal_strlit("png");
        reveal_strlit("jpg");
        reveal_strlit("jpeg");
        reveal_strlit("gif");
        reveal_strlit("webp");
        reveal_strlit("svg");
        reveal_strlit("mp3");
        reveal_strlit("ogg");
        reveal_strlit("wav");
        assert("wav"@.len() != "html"@.len());
        assert("wav"@[0] != "htm"@[0]);
        assert("wav"@.len() != "js"@.len());
        assert("wav"@[0] != "mjs"@[0]);
        assert("wav"@[0] != "css"@[0]);
        assert("wav"@.len() != "json"@.len());
        assert("wav"@[0] != "png"@[0]);
        assert("wav"@[0] != "jpg"@[0]);
        assert("wav"@.len() != "jpeg"@.len());
        assert("wav"@[0] != "gif"@[0]);
        assert("wav"@.len() != "webp"@.len());
        assert("wav"@[0] != "svg"@[0]);
        assert("wav"@[0] != "mp3"@[0]);
        assert("wav"@[0] != "ogg"@[0]);
    }
    assert(web_mime("mp4"@) == "video/mp4"@) by {
        reveal_strlit("html");
        reveal_strlit("htm");
        reveal_strlit("js");
        reveal_strlit("mjs");
        reveal_strlit("css");
        reveal_strlit("json");
        reveal_strlit("png");
        reveal_strlit("jpg");
        reveal_strlit("jpeg");
        reveal_strlit("gif");
        reveal_strlit("webp");
        reveal_strlit("svg");
        reveal_strlit("mp3");
        reveal_strlit("ogg");
        reveal_strlit("wav");
        reveal_strlit("mp4");
        assert("mp4"@.len() != "html"@.len());
        assert("mp4"@[0] != "htm"@[0]);
        assert("mp4"@.len() != "js"@.len());
        assert("mp4"@[1] != "mjs"@[1]);
        assert("mp4"@[0] != "css"@[0]);
        assert("mp4"@.len() != "json"@.len());
        assert("mp4"@[0] != "png"@[0]);
        assert("mp4"@[0] != "jpg"@[0]);
        assert("mp4"@.len() != "jpeg"@.len());
        assert("mp4"@[0] != "gif"@[0]);
        assert("mp4"@.len() != "webp"@.len());
        assert("mp4"@[0] != "svg"@[0]);
        assert("mp4"@[2] != "mp3"@[2]);
        assert("mp4"@[0] != "ogg"@[0]);
        assert("mp4"@[0] != "wav"@[0]);
    }
    assert(web_mime("m4v"@) == "video/mp4"@) by {
        reveal_strlit("html");
        reveal_strlit("htm");
        reveal_strlit("js");
        reveal_strlit("mjs");
        reveal_strlit("css");
        reveal_strlit("json");
        reveal_strlit("png");
        reveal_strlit("jpg");
        reveal_strlit("jpeg");
        reveal_strlit("gif");
        reveal_strlit("webp");
        reveal_strlit("svg");
        reveal_strlit("mp3");
        reveal_strlit("ogg");
        reveal_strlit("wav");
        reveal_strlit("mp4");
        reveal_strlit("m4v");
        assert("m4v"@.len() != "html"@.len());
        assert("m4v"@[0] != "htm"@[0]);
        assert("m4v"@.len() != "js"@.len());
        assert("m4v"@[1] != "mjs"@[1]);
        assert("m4v"@[0] != "css"@[0]);
        assert("m4v"@.len() != "json"@.len());
        assert("m4v"@[0] != "png"@[0]);
        assert("m4v"@[0] != "jpg"@[0]);
        assert("m4v"@.len() != "jpeg"@.len());
        assert("m4v"@[0] != "gif"@[0]);
        assert("m4v"@.len() != "webp"@.len());
        assert("m4v"@[0] != "svg"@[0]);
        assert("m4v"@[1] != "mp3"@[1]);
        assert("m4v"@[0] != "ogg"@[0]);
        assert("m4v"@[0] != "wav"@[0]);
        assert("m4v"@[1] != "mp4"@[1]);
    }
    assert(web_mime("webm"@) == "video/webm"@) by {
        reveal_strlit("html");
        reveal_strlit("htm");
        reveal_strlit("js");
        reveal_strlit("mjs");
        reveal_strlit("css");
        reveal_strlit("json");
        reveal_strlit("png");
        reveal_strlit("jpg");
        reveal_strlit("jpeg");
        reveal_strlit("gif");
        reveal_strlit("webp");
        reveal_strlit("svg");
        reveal_strlit("mp3");
        reveal_strlit("ogg");
        reveal_strlit("wav");
        reveal_strlit("mp4");
        reveal_strlit("m4v");
        reveal_strlit("webm");
        assert("webm"@[0] != "html"@[0]);
        assert("webm"@.len() != "htm"@.len());
        assert("webm"@.len() != "js"@.len());
        assert("webm"@.len() != "mjs"@.len());
        assert("webm"@.len() != "css"@.len());
        assert("webm"@[0] != "json"@[0]);
        assert("webm"@.len() != "png"@.len());
        assert("webm"@.len() != "jpg"@.len());
        assert("webm"@[0] != "jpeg"@[0]);
        assert("webm"@.len() != "gif"@.len());
        assert("webm"@[3] != "webp"@[3]);
        assert("webm"@.len() != "svg"@.len());
        assert("webm"@.len() != "mp3"@.len());
        assert("webm"@.len() != "ogg"@.len());
        assert("webm"@.len() != "wav"@.len());
        assert("webm"@.len() != "mp4"@.len());
        assert("webm"@.len() != "m4v"@.len());
    }
    assert(web_mime("woff"@) == "font/woff"@) by {
        reveal_strlit("html");
        reveal_strlit("htm");
        reveal_strlit("js");
        reveal_strlit("mjs");
        reveal_strlit("css");
        reveal_strlit("json");
        reveal_strlit("png");
        reveal_strlit("jpg");
        reveal_strlit("jpeg");
        reveal_strlit("gif");
        reveal_strlit("webp");
        reveal_strlit("svg");
        reveal_strlit("mp3");
        reveal_strlit("ogg");
        reveal_strlit("wav");
        reveal_strlit("mp4");
        reveal_strlit("m4v");
        reveal_strlit("webm");
        reveal_strlit("woff");
        assert("woff"@[0] != "html"@[0]);
        assert("woff"@.len() != "htm"@.len());
        assert("woff"@.len() != "js"@.len());
        assert("woff"@.len() != "mjs"@.len());
        assert("woff"@.len() != "css"@.len());
        assert("woff"@[0] != "json"@[0]);
        assert("woff"@.len() != "png"@.len());
        assert("woff"@.len() != "jpg"@.len());
        assert("woff"@[0] != "jpeg"@[0]);
        assert("woff"@.len() != "gif"@.len());
        assert("woff"@[1] != "webp"@[1]);
        assert("woff"@.len() != "svg"@.len());
        assert("woff"@.len() != "mp3"@.len());
        assert("woff"@.len() != "ogg"@.len());
        assert("woff"@.len() != "wav"@.len());
        assert("woff"@.len() != "mp4"@.len());
        assert("woff"@.len() != "m4v"@.len());
        assert("woff"@[1] != "webm"@[1]);
    }
    assert(web_mime("woff2"@) == "font/woff2"@) by {
        reveal_strlit("html");
        reveal_strlit("htm");
        reveal_strlit("js");
        reveal_strlit("mjs");
        reveal_strlit("css");
        reveal_strlit("json");
        reveal_strlit("png");
        reveal_strlit("jpg");
        reveal_strlit("jpeg");
        reveal_strlit("gif");
        reveal_strlit("webp");
        reveal_strlit("svg");
        reveal_strlit("mp3");
        reveal_strlit("ogg");
        reveal_strlit("wav");
        reveal_strlit("mp4");
        reveal_strlit("m4v");
        reveal_strlit("webm");
        reveal_strlit("woff");
        reveal_strlit("woff2");
        assert("woff2"@.len() != "html"@.len());
        assert("woff2"@.len() != "htm"@.len());
        assert("woff2"@.len() != "js"@.len());
        assert("woff2"@.len() != "mjs"@.len());
        assert("woff2"@.len() != "css"@.len());
        assert("woff2"@.len() != "json"@.len());
        assert("woff2"@.len() != "png"@.len());
        assert("woff2"@.len() != "jpg"@.len());
        assert("woff2"@.len() != "jpeg"@.len());
        assert("woff2"@.len() != "gif"@.len());
        assert("woff2"@.len() != "webp"@.len());
        assert("woff2"@.len() != "svg"@.len());
        assert("woff2"@.len() != "mp3"@.len());
        assert("woff2"@.len() != "ogg"@.len());
        assert("woff2"@.len() != "wav"@.len());
        assert("woff2"@.len() != "mp4"@.len());
        assert("woff2"@.len() != "m4v"@.len());
        assert("woff2"@.len() != "webm"@.len());
        assert("woff2"@.len() != "woff"@.len());
    }
    assert(web_mime("ttf"@) == "font/ttf"@) by {
        reveal_strlit("html");
        reveal_strlit("htm");
        reveal_strlit("js");
        reveal_strlit("mjs");
        reveal_strlit("css");
        reveal_strlit("json");
        reveal_strlit("png");
        reveal_strlit("jpg");
        reveal_strlit("jpeg");
        reveal_strlit("gif");
        reveal_strlit("webp");
        reveal_strlit("svg");
        reveal_strlit("mp3");
        reveal_strlit("ogg");
        reveal_strlit("wav");
        reveal_strlit("mp4");
        reveal_strlit("m4v");
        reveal_strlit("webm");
        reveal_strlit("woff");
        reveal_strlit("woff2");
        reveal_strlit("ttf");
        assert("ttf"@.len() != "html"@.len());
        assert("ttf"@[0] != "htm"@[0]);
        assert("ttf"@.len() != "js"@.len());
        assert("ttf"@[0] != "mjs"@[0]);
        assert("ttf"@[0] != "css"@[0]);
        assert("ttf"@.len() != "json"@.len());
        assert("ttf"@[0] != "png"@[0]);
        assert("ttf"@[0] != "jpg"@[0]);
        assert("ttf"@.len() != "jpeg"@.len());
        assert("ttf"@[0] != "gif"@[0]);
        assert("ttf"@.len() != "webp"@.len());
        assert("ttf"@[0] != "svg"@[0]);
        assert("ttf"@[0] != "mp3"@[0]);
        assert("ttf"@[0] != "ogg"@[0]);
        assert("ttf"@[0] != "wav"@[0]);
        assert("ttf"@[0] != "mp4"@[0]);
        assert("ttf"@[0] != "m4v"@[0]);
        assert("ttf"@.len() != "webm"@.len());
        assert("ttf"@.len() != "woff"@.len());
        assert("ttf"@.len() != "woff2"@.len());
    }
    assert(ext != "html"@ && ext != "htm"@ && ext != "js"@ && ext != "mjs"@ && ext != "css"@ && ext != "json"@ && ext != "png"@ && ext != "jpg"@ && ext != "jpeg"@ && ext != "gif"@ && ext != "webp"@ && ext != "svg"@ && ext != "mp3"@ && ext != "ogg"@ && ext != "wav"@ && ext != "mp4"@ && ext != "m4v"@ && ext != "webm"@ && ext != "woff"@ && ext != "woff2"@ && ext != "ttf"@ ==> web_mime(ext) == "application/octet-stream"@);
}

/// A Web wallpaper file is served with the type of its lowercase extension.
pub proof fn law_web_files_are_typed_by_extension(root: PathView, entry: PathView, f: WebFile)
    ensures
        web_asset(root, entry, f).mime == web_mime(ascii_lower(path_extension(f.path.spec_view()))),
        ascii_lower(path_extension(f.path.spec_view())) == "css"@ ==> web_asset(root, entry, f).mime
            == "text/css; charset=utf-8"@,
        ascii_lower(path_extension(f.path.spec_view())) == "html"@ ==> web_asset(root, entry, f).mime
            == "text/html; charset=utf-8"@,
        ascii_lower(path_extension(f.path.spec_view())) == "js"@ ==> web_asset(root, entry, f).mime
            == "text/javascript; charset=utf-8"@,
{
    law_web_mime_table(ascii_lower(path_extension(f.path.spec_view())));
}

/// The MIME type of a Web wallpaper file.
pub fn wallpaper_web_mime(path: &LocalPath) -> (mime: &'static str)
    ensures
        mime@ == web_mime(ascii_lower(path_extension(path.spec_view()))),
{
    let ext = to_ascii_lowercase(path.extension().as_str());
    let e = ext.as_str();
    if str_eq(e, "html") || str_eq(e, "htm") {
        "text/html; charset=utf-8"
    } else if str_eq(e, "js") || str_eq(e, "mjs") {
        "text/javascript; charset=utf-8"
    } else if str_eq(e, "css") {
        "text/css; charset=utf-8"
    } else if str_eq(e, "json") {
        "application/json"
    } else if str_eq(e, "png") {
        "image/png"
    } else if str_eq(e, "jpg") || str_eq(e, "jpeg") {
        "image/jpeg"
    } else if str_eq(e, "gif") {
        "image/gif"
    } else if str_eq(e, "webp") {
        "image/webp"
    } else if str_eq(e, "svg") {
        "image/svg+xml"
    } else if str_eq(e, "mp3") {
        "audio/mpeg"
    } else if str_eq(e, "ogg") {
        "audio/ogg"
    } else if str_eq(e, "wav") {
        "audio/wav"
    } else if str_eq(e, "mp4") || str_eq(e, "m4v") {
        "video/mp4"
    } else if str_eq(e, "webm") {
        "video/webm"
    } else if str_eq(e, "woff") {
        "font/woff"
    } else if str_eq(e, "woff2") {
        "font/woff2"
    } else if str_eq(e, "ttf") {
        "font/ttf"
    } else {
        "application/octet-stream"
    }
}

/// The first limit the files break, scanning them in order from index `i`
/// with `total` bytes counted so far.
pub open spec fn web_files_error(root: PathView, files: Seq<WebFile>, i: int, total: int) -> Option<
    Seq<char>,
>
    decreases files.len() - i,
{
    if i < 0 || i >= files.len() {
        None
    } else if !path_has_base(files[i].path.spec_view(), root) {
        Some("Web 壁纸文件越出了项目目录"@)
    } else if total + files[i].size > u64::MAX {
        Some("Web 壁纸总大小溢出"@)
    } else if total + files[i].size > MAX_WALLPAPER_WEB_TOTAL_SIZE {
        Some("Web 壁纸超过 512 MiB 安全上限"@)
    } else if i + 1 > MAX_WALLPAPER_WEB_FILE_COUNT {
        Some("Web 壁纸文件数量超过 4096 个安全上限"@)
    } else {
        web_files_error(root, files, i + 1, total + files[i].size)
    }
}

/// The sandbox asset of one Web wallpaper file.
pub open spec fn web_asset(root: PathView, entry: PathView, f: WebFile) -> AssetView {
    let rel = join_slash(f.path.spec_view().parts.skip(root.parts.len() as int));
    AssetView {
        path: if f.path.spec_view() == entry {
            WALLPAPER_ASSET_PATH@
        } else {
            "wallpaper-engine/web/"@ + rel
        },
        mime: web_mime(ascii_lower(path_extension(f.path.spec_view()))),
        source: SourceView::File(f.path.spec_view()),
        route_path: Some("web/"@ + rel),
        policy: ThemeAssetPolicy::SandboxedWeb,
    }
}

/// The files have pairwise distinct paths.
pub open spec fn paths_distinct(files: Seq<WebFile>) -> bool {
    forall|a: int, b: int|
        0 <= a < b < files.len() ==> (#[trigger] files[a]).path.spec_view() != (
        #[trigger] files[b]).path.spec_view()
}

/// The values of the assets.
pub open spec fn asset_views(assets: Seq<ThemeRuntimeAsset>) -> Seq<AssetView> {
    assets.map_values(|a: ThemeRuntimeAsset| a.spec_view())
}

/// Asset `k` is the wallpaper asset, and the only one.
pub open spec fn sole_wallpaper_asset(assets: Seq<AssetView>, k: int) -> bool {
    &&& 0 <= k < assets.len()
    &&& assets[k].path == WALLPAPER_ASSET_PATH@
    &&& forall|m: int| 0 <= m < assets.len() && m != k ==> (#[trigger] assets[m]).path
        != WALLPAPER_ASSET_PATH@
}

/// A file served below `wallpaper-engine/web/` never takes the wallpaper
/// asset's path.
proof fn lemma_web_path_is_not_wallpaper(rel: Seq<char>)
    ensures
        "wallpaper-engine/web/"@ + rel != WALLPAPER_ASSET_PATH@,
{
    reveal_strlit("wallpaper-engine/web/");
    reveal_strlit("wallpaper-engine/background-video");
    assert(("wallpaper-engine/web/"@ + rel)[17] == 'w');
    assert(WALLPAPER_ASSET_PATH@[17] == 'b');
}

/// The sandbox assets of a Web wallpaper whose project directory is
/// `project_root`, whose entry page is `entry_path`, and whose regular files
/// (links excluded) were found in the order of `files`.
pub fn collect_wallpaper_web_assets(
    project_root: &LocalPath,
    entry_path: &LocalPath,
    files: &Vec<WebFile>,
) -> (r: Result<Vec<ThemeRuntimeAsset>, ThemeError>)
    ensures
        web_files_error(project_root.spec_view(), files@, 0, 0) matches Some(m) ==> (r matches Err(
            e,
        ) && e.0@ == m),
        web_files_error(project_root.spec_view(), files@, 0, 0) is None && !(exists|k: int|
            0 <= k < files@.len() && (#[trigger] files@[k]).path.spec_view()
                == entry_path.spec_view()) ==> (r matches Err(e) && e.0@
            == "Web 壁纸入口文件不在项目目录中"@),
        web_files_error(project_root.spec_view(), files@, 0, 0) is None && (exists|k: int|
            0 <= k < files@.len() && (#[trigger] files@[k]).path.spec_view()
                == entry_path.spec_view()) ==> (r matches Ok(assets) && assets@.map_values(
            |a: ThemeRuntimeAsset| a.spec_view(),
        ) == files@.map_values(
            |f: WebFile| web_asset(project_root.spec_view(), entry_path.spec_view(), f),
        )),
        paths_distinct(files@) && r is Ok ==> exists|k: int|
            #[trigger] sole_wallpaper_asset(asset_views(r->Ok_0@), k),
{
    let mut total: u64 = 0;
    let mut i: usize = 0;
    while i < files.len()
        invariant
            i <= files.len(),
            web_files_error(project_root.spec_view(), files@, 0, 0) == web_files_error(
                project_root.spec_view(),
                files@,
                i as int,
                total as int,
            ),
            forall|k: int|
                0 <= k < i ==> path_has_base(
                    (#[trigger] files@[k]).path.spec_view(),
                    project_root.spec_view(),
                ),
        decreases files.len() - i,
    {
        let f = &files[i];
        if !f.path.has_base(project_root) {
            return Err(theme_error("Web 壁纸文件越出了项目目录"));
        }
        if f.size > u64::MAX - total {
            return Err(theme_error("Web 壁纸总大小溢出"));
        }
        total = total + f.size;
        if total > MAX_WALLPAPER_WEB_TOTAL_SIZE {
            return Err(theme_error("Web 壁纸超过 512 MiB 安全上限"));
        }
        if i + 1 > MAX_WALLPAPER_WEB_FILE_COUNT {
            return Err(theme_error("Web 壁纸文件数量超过 4096 个安全上限"));
        }
        i = i + 1;
    }
    let mut assets: Vec<ThemeRuntimeAsset> = Vec::new();
    let mut found_entry = false;
    let mut j: usize = 0;
    while j < files.len()
        invariant
            j <= files.len(),
            assets.len() == j,
            forall|k: int|
                0 <= k < files.len() ==> path_has_base(
                    (#[trigger] files@[k]).path.spec_view(),
                    project_root.spec_view(),
                ),
            assets@.map_values(|a: ThemeRuntimeAsset| a.spec_view()) == files@.take(
                j as int,
            ).map_values(|f: WebFile| web_asset(project_root.spec_view(), entry_path.spec_view(), f)),
            found_entry == exists|k: int|
                0 <= k < j && (#[trigger] files@[k]).path.spec_view() == entry_path.spec_view(),
        decreases files.len() - j,
    {
        let f = &files[j];
        let rel = f.path.relative_to(project_root);
        let is_entry = f.path.same_as(entry_path);
        let logical = if is_entry {
            WALLPAPER_ASSET_PATH.to_owned()
        } else {
            concat("wallpaper-engine/web/", rel.as_str())
        };
        let mime = wallpaper_web_mime(&f.path);
        let route = concat("web/", rel.as_str());
        let asset = ThemeRuntimeAsset::from_web_file(
            logical,
            mime.to_owned(),
            f.path.duplicate(),
            route,
        );
        let ghost prev = assets@;
        assets.push(asset);
        proof {
            assert(asset.spec_view() == web_asset(
                project_root.spec_view(),
                entry_path.spec_view(),
                files@[j as int],
            ));
            assert(files@.take(j + 1) =~= files@.take(j as int).push(files@[j as int]));
            assert forall|k: int| 0 <= k < j implies #[trigger] assets@[k].spec_view() == web_asset(
                project_root.spec_view(),
                entry_path.spec_view(),
                files@[k],
            ) by {
                assert(assets@[k] == prev[k]);
                assert(prev.map_values(|a: ThemeRuntimeAsset| a.spec_view())[k] == prev[k].spec_view());
                assert(files@.take(j as int).map_values(
                    |f: WebFile| web_asset(project_root.spec_view(), entry_path.spec_view(), f),
                )[k] == web_asset(project_root.spec_view(), entry_path.spec_view(), files@[k]));
            }
            assert(assets@.map_values(|a: ThemeRuntimeAsset| a.spec_view()) =~= files@.take(
                j + 1,
            ).map_values(|f: WebFile| web_asset(project_root.spec_view(), entry_path.spec_view(), f)));
        }
        if is_entry {
            found_entry = true;
        }
        j = j + 1;
    }
    if !found_entry {
        return Err(theme_error("Web 壁纸入口文件不在项目目录中"));
    }
    assert(files@.take(files.len() as int) =~= files@);
    proof {
        if paths_distinct(files@) {
            let views = asset_views(assets@);
            let k0 = choose|k: int|
                0 <= k < files.len() && (#[trigger] files@[k]).path.spec_view()
                    == entry_path.spec_view();
            assert forall|m: int| 0 <= m < views.len() && m != k0 implies (#[trigger] views[m]).path
                != WALLPAPER_ASSET_PATH@ by {
                if m < k0 {
                    assert(files@[m].path.spec_view() != files@[k0].path.spec_view());
                } else {
                    assert(files@[k0].path.spec_view() != files@[m].path.spec_view());
                }
                lemma_web_path_is_not_wallpaper(
                    join_slash(files@[m].path.spec_view().parts.skip(project_root.spec_view().parts.len() as int)),
                );
            }
            assert(sole_wallpaper_asset(views, k0));
            assert(exists|k: int| #[trigger] sole_wallpaper_asset(asset_views(assets@), k));
        }
    }
    let ghost views = asset_views(assets@);
    let r: Result<Vec<ThemeRuntimeAsset>, ThemeError> = Ok(assets);
    assert(asset_views(r->Ok_0@) == views);
    r
}

} // verus!

verus! {

/// Every file of a Web wallpaper is served inside the offline sandbox,
/// under its own route below `web/`, and streamed from its file.
pub proof fn law_web_files_are_sandboxed(root: PathView, entry: PathView, f: WebFile)
    ensures
        web_asset(root, entry, f).policy == ThemeAssetPolicy::SandboxedWeb,
        web_asset(root, entry, f).route_path is Some,
        web_asset(root, entry, f).source == SourceView::File(f.path.spec_view()),
        (web_asset(root, entry, f).path == WALLPAPER_ASSET_PATH@) <== (f.path.spec_view() == entry),
{
}

} // verus!
