//! The handle through which a webview is driven.

use vstd::prelude::*;
use crate::engine::EngineCommand;
use crate::error::Error;
use crate::message::WebviewId;

verus! {

/// The handle through which a webview is driven once it exists. The engine draws window and
/// webview as one, so what concerns the frame is asked of the window's handle.
#[derive(Clone, Debug, PartialEq)]
pub struct VersoWebviewDispatcher<C> {
    pub id: WebviewId,
    pub webview: C,
}

impl<C> VersoWebviewDispatcher<C> {
    /// Not supported: nothing happens, and `f` is not called.
    pub fn with_webview<X>(&self, f: X) -> (r: Result<(), Error>)
        ensures
            r == Ok::<(), Error>(()),
    {
        Ok(())
    }

    /// Not supported: nothing happens.
    pub fn set_zoom<X>(&self, scale_factor: X) -> (r: Result<(), Error>)
        ensures
            r == Ok::<(), Error>(()),
    {
        Ok(())
    }

    /// Runs a script in the page.
    pub fn eval_script(&self, script: String) -> (r: EngineCommand)
        ensures
            r == EngineCommand::ExecuteScript(script),
    {
        EngineCommand::ExecuteScript(script)
    }

    /// The webview fills its window: it sits at the window's top-left corner.
    pub fn position(&self) -> (r: Result<(i32, i32), Error>)
        ensures
            r == Ok::<(i32, i32), Error>((0, 0)),
    {
        Ok((0, 0))
    }

    /// The webview's bounds, given the size of the window's content, which is the webview's
    /// own size: position first, size second.
    pub fn bounds(&self, size: (u32, u32)) -> (r: Result<((i32, i32), (u32, u32)), Error>)
        ensures
            r == Ok::<((i32, i32), (u32, u32)), Error>(((0, 0), size)),
    {
        Ok(((0, 0), size))
    }

    /// Not supported: nothing happens.
    pub fn print(&self) -> (r: Result<(), Error>)
        ensures
            r == Ok::<(), Error>(()),
    {
        Ok(())
    }

    /// Not supported: nothing happens. The engine draws window and webview as one; ask the window.
    pub fn close(&self) -> (r: Result<(), Error>)
        ensures
            r == Ok::<(), Error>(()),
    {
        Ok(())
    }

    /// Not supported: nothing happens. The engine draws window and webview as one; ask the window.
    pub fn set_bounds<X>(&self, bounds: X) -> (r: Result<(), Error>)
        ensures
            r == Ok::<(), Error>(()),
    {
        Ok(())
    }

    /// Not supported: nothing happens. The engine draws window and webview as one; ask the window.
    pub fn set_size<X>(&self, size: X) -> (r: Result<(), Error>)
        ensures
            r == Ok::<(), Error>(()),
    {
        Ok(())
    }

    /// Not supported: nothing happens. The engine draws window and webview as one; ask the window.
    pub fn set_position<X>(&self, position: X) -> (r: Result<(), Error>)
        ensures
            r == Ok::<(), Error>(()),
    {
        Ok(())
    }

    /// Not supported: nothing happens. The engine draws window and webview as one; ask the window.
    pub fn set_focus(&self) -> (r: Result<(), Error>)
        ensures
            r == Ok::<(), Error>(()),
    {
        Ok(())
    }

    /// Not supported: nothing happens.
    pub fn reparent<X>(&self, window: X) -> (r: Result<(), Error>)
        ensures
            r == Ok::<(), Error>(()),
    {
        Ok(())
    }

    /// Not supported: nothing happens.
    pub fn set_auto_resize(&self, auto_resize: bool) -> (r: Result<(), Error>)
        ensures
            r == Ok::<(), Error>(()),
    {
        Ok(())
    }

    /// Not supported: nothing happens.
    pub fn clear_all_browsing_data(&self) -> (r: Result<(), Error>)
        ensures
            r == Ok::<(), Error>(()),
    {
        Ok(())
    }

    /// Not supported: nothing happens. The engine draws window and webview as one; ask the window.
    pub fn hide_webview(&self) -> (r: Result<(), Error>)
        ensures
            r == Ok::<(), Error>(()),
    {
        Ok(())
    }

    /// Not supported: nothing happens. The engine draws window and webview as one; ask the window.
    pub fn show(&self) -> (r: Result<(), Error>)
        ensures
            r == Ok::<(), Error>(()),
    {
        Ok(())
    }

    /// Not supported: nothing happens.
    pub fn set_background_color<X>(&self, color: Option<X>) -> (r: Result<(), Error>)
        ensures
            r == Ok::<(), Error>(()),
    {
        Ok(())
    }

    /// Not supported: nothing happens. The engine has no developer tools built in.
    pub fn open_devtools(&self) {
    }

    /// Not supported: nothing happens.
    pub fn close_devtools(&self) {
    }

    /// The engine has no developer tools built in: the answer is always no.
    pub fn is_devtools_open(&self) -> (r: Result<bool, Error>)
        ensures
            r == Ok::<bool, Error>(false),
    {
        Ok(false)
    }

    /// Loads the page again.
    pub fn reload(&self) -> (r: EngineCommand)
        ensures
            r == EngineCommand::Reload,
    {
        EngineCommand::Reload
    }

    /// Not supported: no cookie is ever reported.
    pub fn cookies_for_url<U, K>(&self, url: U) -> (r: Result<Vec<K>, Error>)
        ensures
            r matches Ok(cookies) && cookies@.len() == 0,
    {
        Ok(Vec::new())
    }

    /// Not supported: no cookie is ever reported.
    pub fn cookies<K>(&self) -> (r: Result<Vec<K>, Error>)
        ensures
            r matches Ok(cookies) && cookies@.len() == 0,
    {
        Ok(Vec::new())
    }
}

} // verus!
