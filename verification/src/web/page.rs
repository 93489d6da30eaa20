//! The page that shows the pad in a browser.

use vstd::prelude::*;

use super::handler::IndexQuery;
use super::server::StatusCode;

verus! {

/// A response with a body.
#[derive(Debug)]
pub struct Page {
    pub status: StatusCode,
    pub content_type: &'static str,
    pub body: String,
}

/// The text of the page.
pub open spec fn page_text() -> Seq<char> {
    HEAD_OPEN@
        + STYLE_FRAME@
        + STYLE_SHOULDERS_AND_STICKS@
        + STYLE_BUTTONS@
        + STYLE_SETTINGS@
        + HEAD_CLOSE@
        + MARKUP_PAD@
        + MARKUP_SETTINGS@
        + SCRIPT_OPEN@
        + SCRIPT_STATE@
        + SCRIPT_BUTTON_BITS@
        + SCRIPT_STATUS@
        + SCRIPT_ORIENTATION@
        + SCRIPT_PASSWORD@
        + SCRIPT_SOCKET@
        + SCRIPT_HEARTBEAT@
        + SCRIPT_LEAVE@
        + SCRIPT_SEND_STATE@
        + SCRIPT_BUTTONS@
        + SCRIPT_DPAD@
        + SCRIPT_STICKS@
        + SCRIPT_LAYOUT@
        + SCRIPT_SETTINGS@
        + SCRIPT_RESIZE@
        + SCRIPT_EDIT@
        + SCRIPT_START@
        + PAGE_CLOSE@
}

/// The page is one document: its style stands between the tags of the style, the pad and the
/// settings panel follow in the body, and the whole script, from its state on and in the order in
/// which its parts build on each other, stands between the tags of the script.
pub proof fn lemma_page_layout(text: Seq<char>)
    requires
        text == page_text(),
    ensures
        text == "<!DOCTYPE html>\n<html lang=\"zh-CN\">\n<head>\n    <meta charset=\"UTF-8\">\n    <meta name=\"viewport\" content=\"width=device-width, initial-scale=1.0, maximum-scale=1.0, user-scalable=no, viewport-fit=cover\">\n    <title>WebPad - Virtual Gamepad</title>\n    <style>\n"@
            + STYLE_FRAME@
            + STYLE_SHOULDERS_AND_STICKS@
            + STYLE_BUTTONS@
            + STYLE_SETTINGS@
            + "    </style>\n</head>\n<body>\n"@
            + MARKUP_PAD@
            + MARKUP_SETTINGS@
            + "    <script>\n"@
            + SCRIPT_STATE@
            + SCRIPT_BUTTON_BITS@
            + SCRIPT_STATUS@
            + SCRIPT_ORIENTATION@
            + SCRIPT_PASSWORD@
            + SCRIPT_SOCKET@
            + SCRIPT_HEARTBEAT@
            + SCRIPT_LEAVE@
            + SCRIPT_SEND_STATE@
            + SCRIPT_BUTTONS@
            + SCRIPT_DPAD@
            + SCRIPT_STICKS@
            + SCRIPT_LAYOUT@
            + SCRIPT_SETTINGS@
            + SCRIPT_RESIZE@
            + SCRIPT_EDIT@
            + SCRIPT_START@
            + "    </script>\n</body>\n</html>"@,
{
}

/// What the script sends is what the server reads: the bits of the buttons are those of the pad's
/// state, the state goes out whole under the names of its fields, and a heartbeat goes out every
/// five seconds.
pub proof fn lemma_page_speaks_protocol()
    ensures
        SCRIPT_BUTTON_BITS@ == r##"    var BTN = {
        UP: 1<<0, DOWN: 1<<1, LEFT: 1<<2, RIGHT: 1<<3,
        START: 1<<4, BACK: 1<<5,
        LTHUMB: 1<<6, RTHUMB: 1<<7,
        LB: 1<<8, RB: 1<<9,
        GUIDE: 1<<10,
        A: 1<<12, B: 1<<13, X: 1<<14, Y: 1<<15
    };

"##@,
        SCRIPT_HEARTBEAT@ == r##"    function startHeartbeat() {
        stopHeartbeat();
        state.lastPong = Date.now();
        state.heartbeatInterval = setInterval(function() {
            sendWs({ type: 'heartbeat' });
            if (Date.now() - state.lastPong > state.heartbeatTimeout) disconnect();
        }, 5000);
    }
"##@,
        SCRIPT_SEND_STATE@ == r##"    function sendGamepadState() {
        if (!state.connected || !state.authenticated) return;
        sendWs({
            type: 'gamepad_state',
            buttons: state.buttons,
            left_trigger: state.leftTrigger,
            right_trigger: state.rightTrigger,
            thumb_lx: state.thumbLX, thumb_ly: state.thumbLY,
            thumb_rx: state.thumbRX, thumb_ry: state.thumbRY
        });
        state.framesSent++;
    }

"##@,
{
}

/// The page as a string.
pub fn index_html() -> (html: String)
    ensures
        html@ == page_text(),
        html@ == "<!DOCTYPE html>\n<html lang=\"zh-CN\">\n<head>\n    <meta charset=\"UTF-8\">\n    <meta name=\"viewport\" content=\"width=device-width, initial-scale=1.0, maximum-scale=1.0, user-scalable=no, viewport-fit=cover\">\n    <title>WebPad - Virtual Gamepad</title>\n    <style>\n"@
            + STYLE_FRAME@
            + STYLE_SHOULDERS_AND_STICKS@
            + STYLE_BUTTONS@
            + STYLE_SETTINGS@
            + "    </style>\n</head>\n<body>\n"@
            + MARKUP_PAD@
            + MARKUP_SETTINGS@
            + "    <script>\n"@
            + SCRIPT_STATE@
            + SCRIPT_BUTTON_BITS@
            + SCRIPT_STATUS@
            + SCRIPT_ORIENTATION@
            + SCRIPT_PASSWORD@
            + SCRIPT_SOCKET@
            + SCRIPT_HEARTBEAT@
            + SCRIPT_LEAVE@
            + SCRIPT_SEND_STATE@
            + SCRIPT_BUTTONS@
            + SCRIPT_DPAD@
            + SCRIPT_STICKS@
            + SCRIPT_LAYOUT@
            + SCRIPT_SETTINGS@
            + SCRIPT_RESIZE@
            + SCRIPT_EDIT@
            + SCRIPT_START@
            + "    </script>\n</body>\n</html>"@,
{
    let mut html = String::new();
    html.append(HEAD_OPEN);
    html.append(STYLE_FRAME);
    html.append(STYLE_SHOULDERS_AND_STICKS);
    html.append(STYLE_BUTTONS);
    html.append(STYLE_SETTINGS);
    html.append(HEAD_CLOSE);
    html.append(MARKUP_PAD);
    html.append(MARKUP_SETTINGS);
    html.append(SCRIPT_OPEN);
    html.append(SCRIPT_STATE);
    html.append(SCRIPT_BUTTON_BITS);
    html.append(SCRIPT_STATUS);
    html.append(SCRIPT_ORIENTATION);
    html.append(SCRIPT_PASSWORD);
    html.append(SCRIPT_SOCKET);
    html.append(SCRIPT_HEARTBEAT);
    html.append(SCRIPT_LEAVE);
    html.append(SCRIPT_SEND_STATE);
    html.append(SCRIPT_BUTTONS);
    html.append(SCRIPT_DPAD);
    html.append(SCRIPT_STICKS);
    html.append(SCRIPT_LAYOUT);
    html.append(SCRIPT_SETTINGS);
    html.append(SCRIPT_RESIZE);
    html.append(SCRIPT_EDIT);
    html.append(SCRIPT_START);
    html.append(PAGE_CLOSE);
    assert(html@ =~= page_text());
    proof {
        lemma_page_layout(html@);
    }
    html
}

/// Answers a request for the page, whatever its query holds.
pub fn index(_query: &IndexQuery) -> (page: Page)
    ensures
        page.status == StatusCode::Success,
        page.content_type@ == "text/html; charset=utf-8"@,
        page.body@ == page_text(),
        page.body@ == "<!DOCTYPE html>\n<html lang=\"zh-CN\">\n<head>\n    <meta charset=\"UTF-8\">\n    <meta name=\"viewport\" content=\"width=device-width, initial-scale=1.0, maximum-scale=1.0, user-scalable=no, viewport-fit=cover\">\n    <title>WebPad - Virtual Gamepad</title>\n    <style>\n"@
            + STYLE_FRAME@
            + STYLE_SHOULDERS_AND_STICKS@
            + STYLE_BUTTONS@
            + STYLE_SETTINGS@
            + "    </style>\n</head>\n<body>\n"@
            + MARKUP_PAD@
            + MARKUP_SETTINGS@
            + "    <script>\n"@
            + SCRIPT_STATE@
            + SCRIPT_BUTTON_BITS@
            + SCRIPT_STATUS@
            + SCRIPT_ORIENTATION@
            + SCRIPT_PASSWORD@
            + SCRIPT_SOCKET@
            + SCRIPT_HEARTBEAT@
            + SCRIPT_LEAVE@
            + SCRIPT_SEND_STATE@
            + SCRIPT_BUTTONS@
            + SCRIPT_DPAD@
            + SCRIPT_STICKS@
            + SCRIPT_LAYOUT@
            + SCRIPT_SETTINGS@
            + SCRIPT_RESIZE@
            + SCRIPT_EDIT@
            + SCRIPT_START@
            + "    </script>\n</body>\n</html>"@,
{
    Page {
        status: StatusCode::Success,
        content_type: "text/html; charset=utf-8",
        body: index_html(),
    }
}

/// The head of the page, up to its style.
pub const HEAD_OPEN: &'static str = r##"<!DOCTYPE html>
<html lang="zh-CN">
<head>
    <meta charset="UTF-8">
    <meta name="viewport" content="width=device-width, initial-scale=1.0, maximum-scale=1.0, user-scalable=no, viewport-fit=cover">
    <title>WebPad - Virtual Gamepad</title>
    <style>
"##;

/// The style of the frame.
pub const STYLE_FRAME: &'static str = r##"        * { margin: 0; padding: 0; box-sizing: border-box; -webkit-tap-highlight-color: transparent; }
        html, body {
            width: 100%; height: 100%;
            font-family: -apple-system, BlinkMacSystemFont, 'Segoe UI', sans-serif;
            background: #1a1a2e;
            color: #fff;
            overflow: hidden;
            touch-action: none;
            user-select: none;
            -webkit-user-select: none;
        }
        .container {
            width: 100vw; height: 100vh;
            display: flex;
            flex-direction: column;
            position: fixed;
            top: 0; left: 0;
            transform-origin: top left;
            overflow: hidden;
        }
        #authOverlay {
            position: fixed;
            top: 0; left: 0;
            width: 100vw; height: 100vh;
            z-index: 1000;
            transform-origin: top left;
            background: rgba(0,0,0,0.9);
            display: flex;
            align-items: center;
            justify-content: center;
        }
        .status-bar {
            height: 22px;
            display: flex;
            justify-content: space-between;
            align-items: center;
            padding: 0 8px;
            font-size: 10px;
            color: rgba(255,255,255,0.5);
            flex-shrink: 0;
        }
        .status-dot {
            display: inline-block;
            width: 6px; height: 6px;
            border-radius: 50%;
            margin-right: 4px;
        }
        .status-dot.connected { background: #4ade80; box-shadow: 0 0 4px #4ade80; }
        .status-dot.disconnected { background: #f87171; }

        .gamepad {
            width: 100%;
            flex: 1;
            min-height: 0;
            position: relative;
        }
        .controls { display: none; position: absolute; }
        .controls.visible { display: block; }

"##;

/// The style of shoulder keys, triggers and sticks.
pub const STYLE_SHOULDERS_AND_STICKS: &'static str = r##"        /* === 肩键 === */
        .shoulder-btn {
            position: absolute;
            border-radius: 6px;
            border: 2px solid rgba(255,255,255,0.15);
            background: rgba(255,255,255,0.06);
            color: rgba(255,255,255,0.7);
            font-size: 11px;
            font-weight: bold;
            display: flex;
            align-items: center;
            justify-content: center;
            touch-action: none;
        }
        .shoulder-btn:active, .shoulder-btn.pressed { background: rgba(255,255,255,0.2); }
        .shoulder-btn.lb-btn {
            left: 11.7%; top: 37px;
            width: 100px; height: 35px;
        }
        .shoulder-btn.rb-btn {
            right: 11.7%; top: 35px;
            width: 100px; height: 35px;
        }

        /* === 扳机 === */
        .trigger-bar {
            position: absolute;
            border-radius: 6px;
            border: 2px solid rgba(255,255,255,0.12);
            overflow: hidden;
            background: rgba(255,255,255,0.03);
            touch-action: none;
        }
        .trigger-bar.left-trigger {
            left: 32.9%; top: 100px;
            width: 45px; height: 180px;
        }
        .trigger-bar.right-trigger {
            right: 32.9%; top: 100px;
            width: 45px; height: 180px;
        }
        .trigger-bar .trigger-fill {
            position: absolute; top: 0; width: 100%;
            background: rgba(96,165,250,0.5);
            transition: height 0.05s;
        }
        .trigger-bar .trigger-label {
            position: absolute; top: 50%; left: 50%;
            transform: translate(-50%, -50%);
            font-size: 11px;
            font-weight: bold;
            color: rgba(255,255,255,0.5);
            pointer-events: none;
            text-shadow: 0 1px 2px rgba(0,0,0,0.5);
        }

        /* === 摇杆 === */
        .thumbstick {
            position: absolute;
            border-radius: 50%;
            border: 2px solid rgba(255,255,255,0.15);
            background: rgba(255,255,255,0.04);
            touch-action: none;
        }
        .thumbstick.left-stick {
            left: 10.6%; top: 104px;
            width: 117px; height: 117px;
        }
        .thumbstick.right-stick {
            right: 10.6%; bottom: 30px;
            width: 117px; height: 117px;
        }
        .thumbstick-inner {
            width: 30px; height: 30px;
            border-radius: 50%;
            background: rgba(255,255,255,0.12);
            position: absolute;
            top: 50%; left: 50%;
            transform: translate(-50%, -50%);
            transition: transform 0.05s;
            pointer-events: none;
        }

"##;

/// The style of the cross and of the buttons.
pub const STYLE_BUTTONS: &'static str = r##"        /* === 十字键 === */
        .dpad {
            position: absolute;
            left: 8.6%; bottom: 25px;
            width: 145px; height: 135px;
            touch-action: none;
        }
        .dpad-center {
            position: absolute; top: 50%; left: 50%;
            transform: translate(-50%, -50%);
            width: 48px; height: 45px;
            background: rgba(255,255,255,0.04);
            border-radius: 4px;
        }
        .dpad-btn {
            position: absolute;
            background: rgba(255,255,255,0.06);
            border: 2px solid rgba(255,255,255,0.12);
            color: rgba(255,255,255,0.5);
            display: flex; align-items: center; justify-content: center;
            font-size: 14px;
            touch-action: none;
        }
        .dpad-btn:active, .dpad-btn.pressed { background: rgba(255,255,255,0.2); }
        .dpad-btn.up    { top: 0; left: 50%; transform: translateX(-50%); width: 48px; height: 51px; border-radius: 8px 8px 0 0; }
        .dpad-btn.down  { bottom: 0; left: 50%; transform: translateX(-50%); width: 48px; height: 51px; border-radius: 0 0 8px 8px; }
        .dpad-btn.left  { left: 0; top: 50%; transform: translateY(-50%); width: 55px; height: 45px; border-radius: 8px 0 0 8px; }
        .dpad-btn.right { right: 0; top: 50%; transform: translateY(-50%); width: 55px; height: 45px; border-radius: 0 8px 8px 0; }

        /* === ABXY 按钮 === */
        .abxy-btn {
            position: absolute;
            width: 40px; height: 40px;
            border-radius: 50%;
            border: 2px solid rgba(255,255,255,0.15);
            font-size: 14px; font-weight: bold;
            display: flex; align-items: center; justify-content: center;
            touch-action: none;
        }
        .abxy-btn:active, .abxy-btn.pressed { opacity: 0.6; }
        .abxy-btn.y { right: 17.1%; top: 95px; background: rgba(251,191,36,0.25); border-color: #fbbf24; color: #fbbf24; }
        .abxy-btn.a { right: 17.1%; top: 180px; background: rgba(74,222,128,0.25); border-color: #4ade80; color: #4ade80; }
        .abxy-btn.x { right: 22.9%; top: 140px; background: rgba(96,165,250,0.25); border-color: #60a5fa; color: #60a5fa; }
        .abxy-btn.b { right: 11.4%; top: 140px; background: rgba(248,113,113,0.25); border-color: #f87171; color: #f87171; }

        /* === Back / Start === */
        .ss-btn {
            position: absolute;
            padding: 4px 12px;
            border-radius: 4px;
            border: 1px solid rgba(255,255,255,0.15);
            font-size: 9px;
            color: rgba(255,255,255,0.6);
            background: transparent;
            touch-action: none;
            width: 60px;
            height: 22px;
            display: flex;
            align-items: center;
            justify-content: center;
        }
        .ss-btn:active, .ss-btn.pressed { background: rgba(255,255,255,0.12); }
        .ss-btn.back-btn {
            left: 37.1%; top: 300px;
        }
        .ss-btn.start-btn {
            right: 37.1%; top: 300px;
        }

        /* === 响应式缩放 === */
        .controls {
            transform-origin: top left;
        }

"##;

/// The style of the settings panel.
pub const STYLE_SETTINGS: &'static str = r##"        /* === 设置面板 === */
        #settingsPanel {
            display: none;
            position: fixed; top: 0; left: 0;
            width: 100vw; height: 100vh;
            z-index: 600;
            background: rgba(0,0,0,0.85);
            align-items: center; justify-content: center;
        }
        #settingsPanel.active { display: flex; }
        .layout-item {
            display: flex; align-items: center; justify-content: space-between;
            padding: 6px 8px; border-radius: 6px; margin-bottom: 4px;
            background: rgba(255,255,255,0.04); font-size: 13px;
        }
        .layout-item.active {
            background: rgba(96,165,250,0.2);
            border: 1px solid rgba(96,165,250,0.4);
        }
        .layout-item button {
            background: none; border: none; color: rgba(255,255,255,0.6);
            cursor: pointer; font-size: 12px; padding: 2px 6px;
        }
        .layout-item button:hover { color: #fff; }
        body.edit-mode .shoulder-btn,
        body.edit-mode .trigger-bar,
        body.edit-mode .thumbstick,
        body.edit-mode .dpad,
        body.edit-mode .abxy-btn,
        body.edit-mode .ss-btn {
            cursor: move !important;
        }
        .edit-selected {
            outline: 2px solid #fbbf24 !important;
            z-index: 100 !important;
        }
        .edit-resize-handle {
            position: absolute;
            width: 18px; height: 18px;
            background: #fbbf24;
            border: 2px solid #fff;
            border-radius: 3px;
            z-index: 200;
            touch-action: none;
        }
        .edit-resize-handle.nw { top: -9px; left: -9px; cursor: nw-resize; }
        .edit-resize-handle.ne { top: -9px; right: -9px; cursor: ne-resize; }
        .edit-resize-handle.sw { bottom: -9px; left: -9px; cursor: sw-resize; }
        .edit-resize-handle.se { bottom: -9px; right: -9px; cursor: se-resize; }
        .color-swatch {
            width: 100%; aspect-ratio: 1;
            border-radius: 4px; cursor: pointer;
            border: 2px solid transparent;
            transition: border-color 0.15s;
        }
        .color-swatch.active { border-color: #fff; }
        .color-swatch:hover { border-color: rgba(255,255,255,0.5); }
"##;

/// The end of the style and of the head.
pub const HEAD_CLOSE: &'static str = r##"    </style>
</head>
<body>
"##;

/// The pad.
pub const MARKUP_PAD: &'static str = r##"    <div class="container">
        <div class="status-bar">
            <span><span class="status-dot disconnected" id="statusDot"></span><span id="statusText">Connecting...</span></span>
            <span id="fps"></span>
        </div>
        <div class="gamepad" id="gamepad">
            <div class="controls" id="controls">
                <!-- LB 肩键 -->
                <div class="shoulder-btn lb-btn" data-btn="lb" data-layout-id="lb">LB</div>
                <!-- RB 肩键 -->
                <div class="shoulder-btn rb-btn" data-btn="rb" data-layout-id="rb">RB</div>
                <!-- LT 扳机 -->
                <div class="trigger-bar left-trigger" id="leftTrigger" data-layout-id="lt">
                    <span class="trigger-label">LT</span>
                    <div class="trigger-fill" style="height:0%"></div>
                </div>
                <!-- RT 扳机 -->
                <div class="trigger-bar right-trigger" id="rightTrigger" data-layout-id="rt">
                    <span class="trigger-label">RT</span>
                    <div class="trigger-fill" style="height:0%"></div>
                </div>
                <!-- 左摇杆 -->
                <div class="thumbstick left-stick" id="leftStick" data-layout-id="leftStick">
                    <div class="thumbstick-inner" id="leftStickInner"></div>
                </div>
                <!-- 右摇杆 -->
                <div class="thumbstick right-stick" id="rightStick" data-layout-id="rightStick">
                    <div class="thumbstick-inner" id="rightStickInner"></div>
                </div>
                <!-- 十字键 -->
                <div class="dpad" id="dpad" data-layout-id="dpad">
                    <div class="dpad-center"></div>
                    <div class="dpad-btn up" data-btn="up">&#9650;</div>
                    <div class="dpad-btn down" data-btn="down">&#9660;</div>
                    <div class="dpad-btn left" data-btn="left">&#9664;</div>
                    <div class="dpad-btn right" data-btn="right">&#9654;</div>
                </div>
                <!-- ABXY 按钮 -->
                <div class="abxy-btn y" data-btn="y" data-layout-id="y">Y</div>
                <div class="abxy-btn a" data-btn="a" data-layout-id="a">A</div>
                <div class="abxy-btn x" data-btn="x" data-layout-id="x">X</div>
                <div class="abxy-btn b" data-btn="b" data-layout-id="b">B</div>
                <!-- Back / Start -->
                <div class="ss-btn back-btn" data-btn="select" data-layout-id="back">BACK</div>
                <div class="ss-btn start-btn" data-btn="start" data-layout-id="start">START</div>
            </div>
        </div>
    </div>
"##;

/// The settings panel.
pub const MARKUP_SETTINGS: &'static str = r##"    <button id="settingsBtn" style="position:fixed;top:28px;right:8px;z-index:500;width:32px;height:32px;border:none;border-radius:50%;background:rgba(255,255,255,0.1);color:#fff;font-size:16px;cursor:pointer;display:flex;align-items:center;justify-content:center;">&#9881;</button>
    <div id="settingsPanel">
      <div style="background:#1a1a2e;border:1px solid rgba(255,255,255,0.15);border-radius:16px;padding:20px;width:300px;max-height:80vh;overflow-y:auto;">
        <div style="display:flex;justify-content:space-between;align-items:center;margin-bottom:12px;">
          <h2 style="font-size:16px;">设置</h2>
          <button id="closeSettings" style="background:none;border:none;color:#fff;font-size:18px;cursor:pointer;">&times;</button>
        </div>
        <div style="margin-bottom:12px;">
          <label style="display:block;font-size:12px;color:rgba(255,255,255,0.6);margin-bottom:4px;">背景颜色</label>
          <div id="bgColorPicker" style="display:flex;flex-direction:column;gap:6px;">
            <div id="colorPalette" style="display:grid;grid-template-columns:repeat(8,1fr);gap:3px;"></div>
            <div style="display:flex;align-items:center;gap:4px;">
              <span style="font-size:11px;color:rgba(255,255,255,0.5);">#</span>
              <input type="text" id="bgColorHex" value="1a1a2e" maxlength="6" style="flex:1;padding:4px 8px;border:1px solid rgba(255,255,255,0.15);border-radius:4px;background:rgba(255,255,255,0.05);color:#fff;font-size:12px;outline:none;font-family:monospace;">
              <div id="bgColorPreview" style="width:24px;height:24px;border-radius:4px;border:1px solid rgba(255,255,255,0.2);background:#1a1a2e;"></div>
            </div>
          </div>
        </div>
        <div style="margin-bottom:12px;">
          <div style="display:flex;justify-content:space-between;align-items:center;margin-bottom:6px;">
            <label style="font-size:12px;color:rgba(255,255,255,0.6);">布局</label>
            <button id="newLayoutBtn" style="padding:2px 8px;border:none;border-radius:4px;background:#4ade80;color:#000;font-size:11px;cursor:pointer;">+ 新建</button>
          </div>
          <div id="layoutList" style="max-height:150px;overflow-y:auto;"></div>
        </div>
        <div style="display:flex;gap:6px;flex-wrap:wrap;">
          <button id="enterEditBtn" style="flex:1;padding:8px;border:none;border-radius:6px;background:#60a5fa;color:#fff;font-size:12px;cursor:pointer;">编辑布局</button>
          <button id="exportLayoutBtn" style="flex:1;padding:8px;border:none;border-radius:6px;background:rgba(255,255,255,0.1);color:#fff;font-size:12px;cursor:pointer;">导出</button>
          <button id="importLayoutBtn" style="flex:1;padding:8px;border:none;border-radius:6px;background:rgba(255,255,255,0.1);color:#fff;font-size:12px;cursor:pointer;">导入</button>
        </div>
        <input type="file" id="importFile" accept=".json" style="display:none;">
      </div>
    </div>
    <div id="editToolbar" style="display:none;position:fixed;bottom:10px;left:50%;transform:translateX(-50%);z-index:700;background:rgba(0,0,0,0.8);padding:8px 16px;border-radius:8px;gap:8px;align-items:center;">
      <span style="font-size:12px;color:rgba(255,255,255,0.7);">编辑模式</span>
      <button id="saveEditBtn" style="padding:4px 10px;border:none;border-radius:4px;background:#4ade80;color:#000;font-size:12px;cursor:pointer;">保存</button>
      <button id="cancelEditBtn" style="padding:4px 10px;border:none;border-radius:4px;background:#f87171;color:#fff;font-size:12px;cursor:pointer;">取消</button>
    </div>
"##;

/// The tag that opens the script.
pub const SCRIPT_OPEN: &'static str = r##"    <script>
"##;

/// What the script knows of the pad.
pub const SCRIPT_STATE: &'static str = r##"(function() {
    'use strict';

    var state = {
        ws: null,
        connected: false,
        authenticated: false,
        password: null,
        token: null,
        reconnectTimer: null,
        reconnectAttempts: 0,
        maxReconnectDelay: 30000,
        buttons: 0,
        leftTrigger: 0,
        rightTrigger: 0,
        thumbLX: 0, thumbLY: 0,
        thumbRX: 0, thumbRY: 0,
        animFrameId: null,
        lastSendTime: 0,
        sendInterval: 16,
        lastPong: Date.now(),
        heartbeatInterval: null,
        heartbeatTimeout: 12000,
        framesSent: 0,
        fpsStartTime: Date.now(),
        rotated: false,
        editMode: false
    };

"##;

/// The bits by which buttons are sent.
pub const SCRIPT_BUTTON_BITS: &'static str = r##"    var BTN = {
        UP: 1<<0, DOWN: 1<<1, LEFT: 1<<2, RIGHT: 1<<3,
        START: 1<<4, BACK: 1<<5,
        LTHUMB: 1<<6, RTHUMB: 1<<7,
        LB: 1<<8, RB: 1<<9,
        GUIDE: 1<<10,
        A: 1<<12, B: 1<<13, X: 1<<14, Y: 1<<15
    };

"##;

/// What the page tells of its state.
pub const SCRIPT_STATUS: &'static str = r##"    var $ = function(id) { return document.getElementById(id); };
    var dom = null;

    function setStatus(connected, auth) {
        state.connected = connected;
        dom.statusDot.className = 'status-dot ' + (connected ? 'connected' : 'disconnected');
        if (connected && auth) dom.statusText.textContent = 'Connected';
        else if (connected) dom.statusText.textContent = 'Authenticating...';
        else dom.statusText.textContent = 'Connecting...';
    }

    function showControls() { dom.controls.className = 'controls visible'; }

    function updateFps() {
        var elapsed = (Date.now() - state.fpsStartTime) / 1000;
        if (elapsed > 1) dom.fps.textContent = Math.round(state.framesSent / elapsed) + ' FPS';
    }

"##;

/// How the pad turns with the screen.
pub const SCRIPT_ORIENTATION: &'static str = r##"    // ========== Orientation / Force Landscape ==========
    // 顺时针 90° 旋转时，元素内部坐标 (dx, dy) 与视口偏移 (vx, vy) 的关系：
    //   dx = vy,  dy = -vx
    // 即内部 x 轴朝向视口下方，内部 y 轴朝向视口左方。
    function applyRotation(el, w, h, rotate) {
        if (rotate) {
            // 宽高互换，旋转 90° 后向上平移自身原高度，正好填满视口
            el.style.width = h + 'px';
            el.style.height = w + 'px';
            el.style.transform = 'rotate(90deg) translateY(-' + w + 'px)';
        } else {
            el.style.width = w + 'px';
            el.style.height = h + 'px';
            el.style.transform = '';
        }
    }
    function updateOrientation() {
        var w = window.innerWidth;
        var h = window.innerHeight;
        var rotate = h > w;
        state.rotated = rotate;
        var container = document.querySelector('.container');
        if (container) applyRotation(container, w, h, rotate);
        var authOverlay = document.getElementById('authOverlay');
        if (authOverlay) applyRotation(authOverlay, w, h, rotate);

        var viewW = rotate ? h : w;
        var viewH = rotate ? w : h;
        var statusHeight = 22;
        var designW = 700;
        var designH = 400 - statusHeight;

        var controls = $('controls');
        var gamepad = $('gamepad');
        if (controls && gamepad) {
            controls.style.width = designW + 'px';
            controls.style.height = designH + 'px';
            var availH = viewH - statusHeight;
            var scaleX = viewW / designW;
            var scaleY = availH / designH;
            var scale = Math.min(scaleX, scaleY);
            controls.style.transform = 'scale(' + scale + ')';
            var offsetX = (viewW - designW * scale) / 2;
            var offsetY = (availH - designH * scale) / 2;
            controls.style.left = offsetX + 'px';
            controls.style.top = offsetY + 'px';
        }
    }

"##;

/// The password dialog.
pub const SCRIPT_PASSWORD: &'static str = r##"    // ========== Password Dialog ==========
    function showPasswordDialog() {
        if (document.getElementById('authOverlay')) return;
        var overlay = document.createElement('div');
        overlay.id = 'authOverlay';
        overlay.innerHTML = '<div style="background:#1a1a2e;border:1px solid rgba(255,255,255,0.15);border-radius:16px;padding:24px;width:260px;text-align:center;">'
            + '<h2 style="margin-bottom:6px;font-size:18px;">WebPad</h2>'
            + '<p style="color:rgba(255,255,255,0.5);margin-bottom:14px;font-size:12px;">Enter password from your PC</p>'
            + '<input type="password" id="passwordInput" placeholder="Password" autocomplete="off" '
            + 'style="width:100%;padding:8px 12px;border:2px solid rgba(255,255,255,0.15);border-radius:8px;background:rgba(255,255,255,0.05);color:#fff;font-size:15px;outline:none;box-sizing:border-box;">'
            + '<button id="authBtn" style="width:100%;margin-top:8px;padding:8px;border:none;border-radius:8px;background:#4ade80;color:#000;font-size:14px;font-weight:bold;cursor:pointer;">Connect</button>'
            + '<p id="authError" style="color:#f87171;margin-top:8px;font-size:11px;display:none;"></p>'
            + '</div>';
        document.body.appendChild(overlay);

        var input = $('passwordInput');
        var btn = $('authBtn');
        var error = $('authError');

        function doAuth() {
            var pwd = input.value.trim();
            if (!pwd) return;
            error.style.display = 'none';
            btn.disabled = true;
            btn.textContent = '...';
            sendWs({ type: 'auth_request', password: pwd });
        }
        btn.addEventListener('click', doAuth);
        input.addEventListener('keydown', function(e) { if (e.key === 'Enter') doAuth(); });
        setTimeout(function() { input.focus(); }, 200);
    }

    function removePasswordDialog() {
        var el = document.getElementById('authOverlay');
        if (el) el.remove();
    }

    function showAuthError(msg) {
        var error = $('authError');
        var btn = $('authBtn');
        if (error) { error.textContent = msg; error.style.display = 'block'; }
        if (btn) { btn.disabled = false; btn.textContent = 'Retry'; }
    }

"##;

/// The connection to the server.
pub const SCRIPT_SOCKET: &'static str = r##"    // ========== WebSocket ==========
    function connect() {
        if (state.ws && (state.ws.readyState === WebSocket.OPEN || state.ws.readyState === WebSocket.CONNECTING)) return;
        var protocol = window.location.protocol === 'https:' ? 'wss:' : 'ws:';
        var url = protocol + '//' + window.location.host + '/ws';
        setStatus(false, false);
        try {
            var ws = new WebSocket(url);
            state.ws = ws;
            ws.onopen = function() { state.reconnectAttempts = 0; setStatus(true, false); };
            ws.onmessage = function(event) { try { handleServerMessage(JSON.parse(event.data)); } catch (e) {} };
            ws.onclose = function() { state.ws = null; state.authenticated = false; state.token = null; setStatus(false, false); stopHeartbeat(); scheduleReconnect(); };
            ws.onerror = function() {};
        } catch (e) { scheduleReconnect(); }
    }

    function scheduleReconnect() {
        if (state.reconnectTimer) return;
        var delay = Math.min(1000 * Math.pow(2, state.reconnectAttempts), state.maxReconnectDelay);
        state.reconnectAttempts++;
        state.reconnectTimer = setTimeout(function() { state.reconnectTimer = null; connect(); }, delay);
    }

    function sendWs(msg) {
        if (state.ws && state.ws.readyState === WebSocket.OPEN) state.ws.send(JSON.stringify(msg));
    }

    function handleServerMessage(msg) {
        switch (msg.type) {
            case 'connected': break;
            case 'auth_success':
                state.authenticated = true;
                state.token = msg.token || '';
                removePasswordDialog();
                setStatus(true, true);
                showControls();
                startHeartbeat();
                break;
            case 'auth_failure':
                state.authenticated = false;
                showAuthError(msg.reason || 'Wrong password');
                break;
            case 'pong':
                state.lastPong = Date.now();
                break;
            case 'rumble':
                if (navigator.vibrate) {
                    var intensity = Math.max(msg.left_motor || 0, msg.right_motor || 0);
                    if (intensity > 0) navigator.vibrate(intensity * 2);
                }
                break;
        }
    }

"##;

/// The heartbeat of the page.
pub const SCRIPT_HEARTBEAT: &'static str = r##"    function startHeartbeat() {
        stopHeartbeat();
        state.lastPong = Date.now();
        state.heartbeatInterval = setInterval(function() {
            sendWs({ type: 'heartbeat' });
            if (Date.now() - state.lastPong > state.heartbeatTimeout) disconnect();
        }, 5000);
    }
"##;

/// The end of the heartbeat and of the connection.
pub const SCRIPT_LEAVE: &'static str = r##"    function stopHeartbeat() {
        if (state.heartbeatInterval) { clearInterval(state.heartbeatInterval); state.heartbeatInterval = null; }
    }
    function disconnect() {
        stopHeartbeat();
        if (state.ws) { sendWs({ type: 'disconnect', reason: 'client_timeout' }); state.ws.close(); state.ws = null; }
        state.authenticated = false;
        setStatus(false, false);
        scheduleReconnect();
    }

"##;

/// The message that carries the state of the pad.
pub const SCRIPT_SEND_STATE: &'static str = r##"    function sendGamepadState() {
        if (!state.connected || !state.authenticated) return;
        sendWs({
            type: 'gamepad_state',
            buttons: state.buttons,
            left_trigger: state.leftTrigger,
            right_trigger: state.rightTrigger,
            thumb_lx: state.thumbLX, thumb_ly: state.thumbLY,
            thumb_rx: state.thumbRX, thumb_ry: state.thumbRY
        });
        state.framesSent++;
    }

"##;

/// Buttons and triggers.
pub const SCRIPT_BUTTONS: &'static str = r##"    // ========== Buttons (ABXY, LB, RB, Back, Start) ==========
    function setupButtons() {
        var btnMap = {
            start: BTN.START, back: BTN.BACK, select: BTN.BACK,
            lb: BTN.LB, rb: BTN.RB,
            a: BTN.A, b: BTN.B, x: BTN.X, y: BTN.Y
        };
        document.querySelectorAll('[data-btn]').forEach(function(el) {
            if (el.id === 'dpad') return;
            var bit = btnMap[el.dataset.btn];
            if (bit === undefined) return;
            function press(e) { if (state.editMode) return; e.preventDefault(); e.stopPropagation(); state.buttons |= bit; el.classList.add('pressed'); }
            function release(e) { if (state.editMode) return; e.preventDefault(); e.stopPropagation(); state.buttons &= ~bit; el.classList.remove('pressed'); }
            el.addEventListener('touchstart', press, {passive:false});
            el.addEventListener('touchend', release, {passive:false});
            el.addEventListener('touchcancel', release, {passive:false});
            el.addEventListener('mousedown', press);
            el.addEventListener('mouseup', release);
            el.addEventListener('mouseleave', release);
        });
    }

    // ========== Triggers (multi-touch safe via touch.identifier) ==========
    function setupTriggers() {
        function setupTrigger(el, setter) {
            if (!el) return;
            var activeTouchId = null;
            el.addEventListener('touchstart', function(e) {
                if (state.editMode) return;
                e.preventDefault(); e.stopPropagation();
                if (activeTouchId !== null) return; // already tracking a finger
                var t = e.changedTouches[0];
                activeTouchId = t.identifier;
                doUpdate(t);
            }, {passive:false});
            el.addEventListener('touchmove', function(e) {
                if (state.editMode) return;
                e.preventDefault(); e.stopPropagation();
                if (activeTouchId === null) return;
                var t = findChangedTouch(e, activeTouchId);
                if (t) doUpdate(t);
            }, {passive:false});
            function onTouchEnd(e) {
                if (state.editMode) return;
                e.preventDefault(); e.stopPropagation();
                if (activeTouchId === null) return;
                var t = findChangedTouch(e, activeTouchId);
                if (t) { activeTouchId = null; doReset(); }
            }
            el.addEventListener('touchend', onTouchEnd, {passive:false});
            el.addEventListener('touchcancel', onTouchEnd, {passive:false});
            // mouse fallback
            el.addEventListener('mousedown', function(e) {
                if (state.editMode) return;
                e.preventDefault(); e.stopPropagation();
                doUpdate(e);
                function onMove(ev) { doUpdate(ev); }
                function onUp(ev) { doReset(); document.removeEventListener('mousemove',onMove); document.removeEventListener('mouseup',onUp); }
                document.addEventListener('mousemove',onMove);
                document.addEventListener('mouseup',onUp);
            });
            function doUpdate(touchOrMouse) {
                var rect = el.getBoundingClientRect();
                var cx = rect.left + rect.width/2, cy = rect.top + rect.height/2;
                var h = el.offsetHeight;
                var localDy;
                if (state.rotated) {
                    localDy = cx - touchOrMouse.clientX;
                } else {
                    localDy = touchOrMouse.clientY - cy;
                }
                var y = localDy + h/2;
                var v = Math.round(Math.max(0, Math.min(1, y / h)) * 255);
                setter(v);
                el.querySelector('.trigger-fill').style.height = (v/255*100)+'%';
            }
            function doReset() {
                setter(0);
                el.querySelector('.trigger-fill').style.height = '0%';
            }
        }
        function findChangedTouch(e, id) {
            for (var i = 0; i < e.changedTouches.length; i++) {
                if (e.changedTouches[i].identifier === id) return e.changedTouches[i];
            }
            return null;
        }
        setupTrigger(dom.leftTrigger, function(v) { state.leftTrigger = v; });
        setupTrigger(dom.rightTrigger, function(v) { state.rightTrigger = v; });
    }

"##;

/// The cross.
pub const SCRIPT_DPAD: &'static str = r##"    // ========== D-Pad (8-direction, multi-touch safe via touch.identifier) ==========
    function setupDpad() {
        var el = $('dpad');
        if (!el) return;
        var activeTouchId = null;
        var deadzone = 8;

        function getDirection(touchOrMouse) {
            var rect = el.getBoundingClientRect();
            var cx = rect.left + rect.width / 2;
            var cy = rect.top + rect.height / 2;
            var vx = touchOrMouse.clientX - cx;
            var vy = touchOrMouse.clientY - cy;
            var dx, dy;
            if (state.rotated) { dx = vy; dy = -vx; }
            else { dx = vx; dy = vy; }
            state.buttons &= ~(BTN.UP | BTN.DOWN | BTN.LEFT | BTN.RIGHT);
            el.querySelectorAll('.dpad-btn').forEach(function(b) { b.classList.remove('pressed'); });
            if (Math.abs(dx) < deadzone && Math.abs(dy) < deadzone) return;
            var angle = Math.atan2(dy, dx) * 180 / Math.PI;
            if (angle < 0) angle += 360;
            if ((angle >= 337.5) || (angle < 22.5)) {
                state.buttons |= BTN.RIGHT;
                el.querySelector('.dpad-btn.right').classList.add('pressed');
            } else if (angle < 67.5) {
                state.buttons |= BTN.DOWN | BTN.RIGHT;
                el.querySelector('.dpad-btn.down').classList.add('pressed');
                el.querySelector('.dpad-btn.right').classList.add('pressed');
            } else if (angle < 112.5) {
                state.buttons |= BTN.DOWN;
                el.querySelector('.dpad-btn.down').classList.add('pressed');
            } else if (angle < 157.5) {
                state.buttons |= BTN.DOWN | BTN.LEFT;
                el.querySelector('.dpad-btn.down').classList.add('pressed');
                el.querySelector('.dpad-btn.left').classList.add('pressed');
            } else if (angle < 202.5) {
                state.buttons |= BTN.LEFT;
                el.querySelector('.dpad-btn.left').classList.add('pressed');
            } else if (angle < 247.5) {
                state.buttons |= BTN.UP | BTN.LEFT;
                el.querySelector('.dpad-btn.up').classList.add('pressed');
                el.querySelector('.dpad-btn.left').classList.add('pressed');
            } else if (angle < 292.5) {
                state.buttons |= BTN.UP;
                el.querySelector('.dpad-btn.up').classList.add('pressed');
            } else {
                state.buttons |= BTN.UP | BTN.RIGHT;
                el.querySelector('.dpad-btn.up').classList.add('pressed');
                el.querySelector('.dpad-btn.right').classList.add('pressed');
            }
        }

        function resetDpad() {
            state.buttons &= ~(BTN.UP | BTN.DOWN | BTN.LEFT | BTN.RIGHT);
            el.querySelectorAll('.dpad-btn').forEach(function(b) { b.classList.remove('pressed'); });
        }

        el.addEventListener('touchstart', function(e) {
            if (state.editMode) return;
            e.preventDefault(); e.stopPropagation();
            if (activeTouchId !== null) return;
            var t = e.changedTouches[0];
            activeTouchId = t.identifier;
            getDirection(t);
        }, {passive:false});
        el.addEventListener('touchmove', function(e) {
            if (state.editMode) return;
            e.preventDefault(); e.stopPropagation();
            if (activeTouchId === null) return;
            var t = findTouch(e, activeTouchId);
            if (t) getDirection(t);
        }, {passive:false});
        function onTouchEnd(e) {
            if (state.editMode) return;
            e.preventDefault(); e.stopPropagation();
            if (activeTouchId === null) return;
            var t = findTouch(e, activeTouchId);
            if (t) { activeTouchId = null; resetDpad(); }
        }
        el.addEventListener('touchend', onTouchEnd, {passive:false});
        el.addEventListener('touchcancel', onTouchEnd, {passive:false});
        // mouse fallback
        el.addEventListener('mousedown', function(e) {
            if (state.editMode) return;
            e.preventDefault(); e.stopPropagation();
            getDirection(e);
            function onMove(ev) { getDirection(ev); }
            function onUp(ev) { resetDpad(); document.removeEventListener('mousemove',onMove); document.removeEventListener('mouseup',onUp); }
            document.addEventListener('mousemove',onMove);
            document.addEventListener('mouseup',onUp);
        });

        function findTouch(e, id) {
            for (var i = 0; i < e.changedTouches.length; i++) {
                if (e.changedTouches[i].identifier === id) return e.changedTouches[i];
            }
            return null;
        }
    }

"##;

/// The sticks.
pub const SCRIPT_STICKS: &'static str = r##"    // ========== Thumbsticks (origin at first touch, no direction until drag) ==========
    function setupThumbsticks() {
        function setupStick(el, innerEl, setX, setY) {
            if (!el || !innerEl) return;
            var activeTouchId = null;
            var radius = 36;
            var maxVal = 32767;
            var originX = 0, originY = 0;

            function doStart(clientX, clientY) {
                originX = clientX;
                originY = clientY;
                setX(0); setY(0);
                innerEl.style.transform = 'translate(-50%, -50%)';
            }
            function doUpdate(clientX, clientY) {
                var vx = clientX - originX, vy = clientY - originY;
                var dx, dy;
                if (state.rotated) { dx = vy; dy = -vx; }
                else { dx = vx; dy = vy; }
                var dist = Math.sqrt(dx*dx + dy*dy);
                if (dist > radius) { dx = dx/dist*radius; dy = dy/dist*radius; }
                setX(Math.round(dx/radius*maxVal));
                setY(Math.round(-dy/radius*maxVal));
                innerEl.style.transform = 'translate(calc(-50% + '+dx+'px), calc(-50% + '+dy+'px))';
            }
            function doReset() {
                setX(0); setY(0);
                innerEl.style.transform = 'translate(-50%, -50%)';
            }

            el.addEventListener('touchstart', function(e) {
                if (state.editMode) return;
                e.preventDefault(); e.stopPropagation();
                if (activeTouchId !== null) return;
                var t = e.changedTouches[0];
                activeTouchId = t.identifier;
                doStart(t.clientX, t.clientY);
            }, {passive:false});
            el.addEventListener('touchmove', function(e) {
                if (state.editMode) return;
                e.preventDefault(); e.stopPropagation();
                if (activeTouchId === null) return;
                var t = findTouch(e, activeTouchId);
                if (t) doUpdate(t.clientX, t.clientY);
            }, {passive:false});
            function onTouchEnd(e) {
                if (state.editMode) return;
                e.preventDefault(); e.stopPropagation();
                if (activeTouchId === null) return;
                var t = findTouch(e, activeTouchId);
                if (t) { activeTouchId = null; doReset(); }
            }
            el.addEventListener('touchend', onTouchEnd, {passive:false});
            el.addEventListener('touchcancel', onTouchEnd, {passive:false});
            // mouse fallback
            el.addEventListener('mousedown', function(e) {
                if (state.editMode) return;
                e.preventDefault(); e.stopPropagation();
                doStart(e.clientX, e.clientY);
                function onMove(ev) { doUpdate(ev.clientX, ev.clientY); }
                function onUp(ev) { doReset(); document.removeEventListener('mousemove',onMove); document.removeEventListener('mouseup',onUp); }
                document.addEventListener('mousemove',onMove);
                document.addEventListener('mouseup',onUp);
            });

            function findTouch(e, id) {
                for (var i = 0; i < e.changedTouches.length; i++) {
                    if (e.changedTouches[i].identifier === id) return e.changedTouches[i];
                }
                return null;
            }
        }
        setupStick(dom.leftStick, dom.leftStickInner,
            function(v) { state.thumbLX = v; }, function(v) { state.thumbLY = v; });
        setupStick(dom.rightStick, dom.rightStickInner,
            function(v) { state.thumbRX = v; }, function(v) { state.thumbRY = v; });
    }

    var LS_KEY = 'webpad_layouts_v2';
    var LAYOUT_ELEMENTS = ['lb','rb','lt','rt','leftStick','rightStick','dpad','y','a','x','b','back','start'];

"##;

/// Layouts and their storage.
pub const SCRIPT_LAYOUT: &'static str = r##"    function getDefaultLayout() {
        return {
            id: 'default',
            name: '默认布局',
            bgColor: '#1a1a2e',
            elements: {
                lb: { left: '11.7%', top: '37px', width: '100px', height: '35px' },
                rb: { right: '11.7%', top: '35px', width: '100px', height: '35px' },
                lt: { left: '32.9%', top: '100px', width: '45px', height: '180px' },
                rt: { right: '32.9%', top: '100px', width: '45px', height: '180px' },
                leftStick: { left: '10.6%', top: '104px', width: '117px', height: '117px' },
                rightStick: { right: '10.6%', bottom: '30px', width: '117px', height: '117px' },
                dpad: { left: '8.6%', bottom: '25px', width: '145px', height: '135px' },
                y: { right: '17.1%', top: '95px', width: '40px', height: '40px' },
                a: { right: '17.1%', top: '180px', width: '40px', height: '40px' },
                x: { right: '22.9%', top: '140px', width: '40px', height: '40px' },
                b: { right: '11.4%', top: '140px', width: '40px', height: '40px' },
                back: { left: '37.1%', top: '300px', width: '60px', height: '22px' },
                start: { right: '37.1%', top: '300px', width: '60px', height: '22px' }
            }
        };
    }

    var LayoutManager = {
        data: null,
        init: function() {
            this.load();
            if (!this.data) {
                this.data = { version: 2, activeLayoutId: 'default', layouts: [getDefaultLayout()] };
                this.save();
            }
            var defaultIdx = -1;
            for (var i = 0; i < this.data.layouts.length; i++) {
                if (this.data.layouts[i].id === 'default') { defaultIdx = i; break; }
            }
            if (defaultIdx === -1) {
                this.data.layouts.unshift(getDefaultLayout());
            }
            this.applyLayout(this.data.activeLayoutId);
        },
        load: function() {
            try {
                var raw = localStorage.getItem(LS_KEY);
                if (raw) this.data = JSON.parse(raw);
            } catch(e) {}
        },
        save: function() {
            try { localStorage.setItem(LS_KEY, JSON.stringify(this.data)); } catch(e) {}
        },
        getLayout: function(id) {
            for (var i = 0; i < this.data.layouts.length; i++) {
                if (this.data.layouts[i].id === id) return this.data.layouts[i];
            }
            return null;
        },
        getActiveLayout: function() {
            return this.getLayout(this.data.activeLayoutId);
        },
        setActiveLayout: function(id) {
            this.data.activeLayoutId = id;
            this.save();
            this.applyLayout(id);
        },
        applyLayout: function(id) {
            var layout = this.getLayout(id) || this.getLayout('default');
            if (!layout) return;
            if (layout.bgColor) document.body.style.background = layout.bgColor;
            for (var key in layout.elements) {
                var el = document.querySelector('[data-layout-id="' + key + '"]');
                if (!el) continue;
                var s = layout.elements[key];
                el.style.left = s.left !== undefined ? s.left : '';
                el.style.top = s.top !== undefined ? s.top : '';
                el.style.right = s.right !== undefined ? s.right : '';
                el.style.bottom = s.bottom !== undefined ? s.bottom : '';
                el.style.width = s.width !== undefined ? s.width : '';
                el.style.height = s.height !== undefined ? s.height : '';
            }
        },
        createLayout: function(name, baseId) {
            var base = this.getLayout(baseId) || this.getLayout('default');
            var newLayout = {
                id: 'layout_' + Date.now(),
                name: name || '新布局',
                bgColor: base.bgColor,
                elements: JSON.parse(JSON.stringify(base.elements))
            };
            this.data.layouts.push(newLayout);
            this.save();
            return newLayout;
        },
        deleteLayout: function(id) {
            if (id === 'default') return false;
            var idx = -1;
            for (var i = 0; i < this.data.layouts.length; i++) {
                if (this.data.layouts[i].id === id) { idx = i; break; }
            }
            if (idx === -1) return false;
            this.data.layouts.splice(idx, 1);
            if (this.data.activeLayoutId === id) {
                this.data.activeLayoutId = 'default';
                this.applyLayout('default');
            }
            this.save();
            return true;
        },
        renameLayout: function(id, newName) {
            var layout = this.getLayout(id);
            if (layout) { layout.name = newName; this.save(); }
        },
        updateBgColor: function(layoutId, color) {
            var layout = this.getLayout(layoutId);
            if (layout) { layout.bgColor = color; this.save(); }
        },
        exportActive: function() {
            return JSON.stringify(this.getActiveLayout(), null, 2);
        },
        importLayout: function(json) {
            var obj = JSON.parse(json);
            if (!obj || !obj.elements) throw new Error('Invalid layout');
            obj.id = 'layout_' + Date.now();
            if (!obj.name) obj.name = '导入布局';
            this.data.layouts.push(obj);
            this.save();
            return obj;
        }
    };

"##;

/// The settings panel at work.
pub const SCRIPT_SETTINGS: &'static str = r##"    function setupSettingsPanel() {
        var settingsBtn = $('settingsBtn');
        var settingsPanel = $('settingsPanel');
        var closeSettings = $('closeSettings');
        var colorPalette = $('colorPalette');
        var bgColorHex = $('bgColorHex');
        var bgColorPreview = $('bgColorPreview');
        var layoutList = $('layoutList');
        var newLayoutBtn = $('newLayoutBtn');
        var enterEditBtn = $('enterEditBtn');
        var exportLayoutBtn = $('exportLayoutBtn');
        var importLayoutBtn = $('importLayoutBtn');
        var importFile = $('importFile');
        var editToolbar = $('editToolbar');
        var saveEditBtn = $('saveEditBtn');
        var cancelEditBtn = $('cancelEditBtn');

        var PRESET_COLORS = [
            '#1a1a2e','#16213e','#0f3460','#533483',
            '#1e1e1e','#2d2d2d','#1a3a1a','#3a1a1a',
            '#0d1117','#161b22','#21262d','#30363d',
            '#1a1a1a','#2c3e50','#34495e','#0b0e14'
        ];

        function setBgColor(color) {
            var hex = color.replace('#', '');
            document.body.style.background = '#' + hex;
            bgColorPreview.style.background = '#' + hex;
            bgColorHex.value = hex;
            LayoutManager.updateBgColor(LayoutManager.data.activeLayoutId, '#' + hex);
            colorPalette.querySelectorAll('.color-swatch').forEach(function(s) {
                s.classList.toggle('active', s.dataset.color === '#' + hex);
            });
        }

        function buildPalette() {
            colorPalette.innerHTML = '';
            PRESET_COLORS.forEach(function(color) {
                var swatch = document.createElement('div');
                swatch.className = 'color-swatch';
                swatch.style.background = color;
                swatch.dataset.color = color;
                swatch.addEventListener('click', function() { setBgColor(color); });
                colorPalette.appendChild(swatch);
            });
        }
        buildPalette();

        function renderLayoutList() {
            layoutList.innerHTML = '';
            LayoutManager.data.layouts.forEach(function(layout) {
                var item = document.createElement('div');
                item.className = 'layout-item' + (layout.id === LayoutManager.data.activeLayoutId ? ' active' : '');
                var nameSpan = document.createElement('span');
                nameSpan.textContent = layout.name;
                var actions = document.createElement('div');
                if (layout.id !== 'default') {
                    var renameBtn = document.createElement('button');
                    renameBtn.textContent = '重命名';
                    renameBtn.onclick = function(e) {
                        e.stopPropagation();
                        var newName = prompt('新名称', layout.name);
                        if (newName) { LayoutManager.renameLayout(layout.id, newName); renderLayoutList(); }
                    };
                    var delBtn = document.createElement('button');
                    delBtn.textContent = '删除';
                    delBtn.onclick = function(e) {
                        e.stopPropagation();
                        if (confirm('删除布局 "' + layout.name + '"?')) {
                            LayoutManager.deleteLayout(layout.id);
                            renderLayoutList();
                        }
                    };
                    actions.appendChild(renameBtn);
                    actions.appendChild(delBtn);
                }
                var switchBtn = document.createElement('button');
                switchBtn.textContent = layout.id === LayoutManager.data.activeLayoutId ? '使用中' : '切换';
                switchBtn.style.color = layout.id === LayoutManager.data.activeLayoutId ? '#4ade80' : '';
                switchBtn.onclick = function(e) {
                    e.stopPropagation();
                    LayoutManager.setActiveLayout(layout.id);
                    renderLayoutList();
                    var active = LayoutManager.getActiveLayout();
                    setBgColor(active.bgColor || '#1a1a2e');
                };
                actions.appendChild(switchBtn);
                item.appendChild(nameSpan);
                item.appendChild(actions);
                layoutList.appendChild(item);
            });
        }

        settingsBtn.addEventListener('click', function() {
            settingsPanel.classList.add('active');
            var active = LayoutManager.getActiveLayout();
            setBgColor(active.bgColor || '#1a1a2e');
            renderLayoutList();
        });
        closeSettings.addEventListener('click', function() { settingsPanel.classList.remove('active'); });
        settingsPanel.addEventListener('click', function(e) { if (e.target === settingsPanel) settingsPanel.classList.remove('active'); });

        bgColorHex.addEventListener('input', function() {
            var hex = bgColorHex.value.replace(/[^0-9a-fA-F]/g, '').substring(0, 6);
            if (hex.length === 6) setBgColor('#' + hex);
        });

        newLayoutBtn.addEventListener('click', function() {
            var name = prompt('新布局名称', '新布局');
            if (name) {
                LayoutManager.createLayout(name, LayoutManager.data.activeLayoutId);
                renderLayoutList();
            }
        });

        exportLayoutBtn.addEventListener('click', function() {
            var data = LayoutManager.exportActive();
            var blob = new Blob([data], {type: 'application/json'});
            var url = URL.createObjectURL(blob);
            var a = document.createElement('a');
            a.href = url;
            a.download = (LayoutManager.getActiveLayout().name || 'layout') + '.json';
            a.click();
            URL.revokeObjectURL(url);
        });

        importLayoutBtn.addEventListener('click', function() { importFile.click(); });
        importFile.addEventListener('change', function(e) {
            var file = e.target.files[0];
            if (!file) return;
            var reader = new FileReader();
            reader.onload = function(ev) {
                try {
                    var imported = LayoutManager.importLayout(ev.target.result);
                    LayoutManager.setActiveLayout(imported.id);
                    renderLayoutList();
                    setBgColor(imported.bgColor || '#1a1a2e');
                    alert('导入成功');
                } catch(err) { alert('导入失败: ' + err.message); }
            };
            reader.readAsText(file);
            importFile.value = '';
        });

        var editState = {
            active: false,
            selectedId: null,
            dragMode: null,
            dragStartX: 0, dragStartY: 0,
            elStartLeft: 0, elStartTop: 0,
            elStartW: 0, elStartH: 0
        };

"##;

/// Controls that are moved and resized.
pub const SCRIPT_RESIZE: &'static str = r##"        function getEditScale() {
            var controls = dom.controls;
            var scaleMatch = controls.style.transform.match(/scale\(([^)]+)\)/);
            return scaleMatch ? parseFloat(scaleMatch[1]) : 1;
        }

        function clientToInner(dx, dy) {
            var scale = getEditScale();
            if (state.rotated) {
                return { dx: dy / scale, dy: -dx / scale };
            }
            return { dx: dx / scale, dy: dy / scale };
        }

        function removeResizeHandles(el) {
            el.querySelectorAll('.edit-resize-handle').forEach(function(h) { h.remove(); });
        }

        function addResizeHandles(el) {
            removeResizeHandles(el);
            ['nw','ne','sw','se'].forEach(function(corner) {
                var handle = document.createElement('div');
                handle.className = 'edit-resize-handle ' + corner;
                handle.dataset.corner = corner;
                handle._resizeDown = function(e) {
                    if (!editState.active) return;
                    if (e.cancelable) e.preventDefault();
                    e.stopPropagation();
                    editState.dragMode = 'resize-' + corner;
                    editState.dragStartX = e.touches ? e.touches[0].clientX : e.clientX;
                    editState.dragStartY = e.touches ? e.touches[0].clientY : e.clientY;
                    var computed = window.getComputedStyle(el);
                    editState.elStartLeft = parseFloat(computed.left) || 0;
                    editState.elStartTop = parseFloat(computed.top) || 0;
                    editState.elStartW = parseFloat(computed.width) || el.offsetWidth;
                    editState.elStartH = parseFloat(computed.height) || el.offsetHeight;
                };
                handle.addEventListener('touchstart', handle._resizeDown, {passive:false});
                handle.addEventListener('mousedown', handle._resizeDown);
                el.appendChild(handle);
            });
        }

        function onEditMove(e) {
            if (!editState.active || !editState.dragMode) return;
            if (e.cancelable) e.preventDefault();
            var clientX = e.touches ? e.touches[0].clientX : e.clientX;
            var clientY = e.touches ? e.touches[0].clientY : e.clientY;
            var cdx = clientX - editState.dragStartX;
            var cdy = clientY - editState.dragStartY;
            var inner = clientToInner(cdx, cdy);
            var el = document.querySelector('[data-layout-id="' + editState.selectedId + '"]');
            if (!el) return;
            var designW = 700, designH = 378;
            var minSize = 20;

            if (editState.dragMode === 'move') {
                var newLeft = editState.elStartLeft + inner.dx;
                var newTop = editState.elStartTop + inner.dy;
                var w = editState.elStartW;
                var h = editState.elStartH;
                newLeft = Math.max(0, Math.min(designW - w, newLeft));
                newTop = Math.max(0, Math.min(designH - h, newTop));
                el.style.left = newLeft + 'px';
                el.style.top = newTop + 'px';
                el.style.right = 'auto';
                el.style.bottom = 'auto';
            } else if (editState.dragMode.indexOf('resize-') === 0) {
                var corner = editState.dragMode.substring(7);
                var newW = editState.elStartW;
                var newH = editState.elStartH;
                var newL = editState.elStartLeft;
                var newT = editState.elStartTop;
                if (corner === 'se') {
                    newW = Math.max(minSize, editState.elStartW + inner.dx);
                    newH = Math.max(minSize, editState.elStartH + inner.dy);
                } else if (corner === 'sw') {
                    newW = Math.max(minSize, editState.elStartW - inner.dx);
                    newH = Math.max(minSize, editState.elStartH + inner.dy);
                    newL = editState.elStartLeft + (editState.elStartW - newW);
                } else if (corner === 'ne') {
                    newW = Math.max(minSize, editState.elStartW + inner.dx);
                    newH = Math.max(minSize, editState.elStartH - inner.dy);
                    newT = editState.elStartTop + (editState.elStartH - newH);
                } else if (corner === 'nw') {
                    newW = Math.max(minSize, editState.elStartW - inner.dx);
                    newH = Math.max(minSize, editState.elStartH - inner.dy);
                    newL = editState.elStartLeft + (editState.elStartW - newW);
                    newT = editState.elStartTop + (editState.elStartH - newH);
                }
                newL = Math.max(0, Math.min(designW - newW, newL));
                newT = Math.max(0, Math.min(designH - newH, newT));
                el.style.width = newW + 'px';
                el.style.height = newH + 'px';
                el.style.left = newL + 'px';
                el.style.top = newT + 'px';
                el.style.right = 'auto';
                el.style.bottom = 'auto';
            }
        }

        function onEditEnd(e) {
            editState.dragMode = null;
        }

"##;

/// The edit mode.
pub const SCRIPT_EDIT: &'static str = r##"        function startEditMode() {
            editState.active = true;
            state.editMode = true;
            document.body.classList.add('edit-mode');
            editToolbar.style.display = 'flex';
            settingsPanel.classList.remove('active');
            LAYOUT_ELEMENTS.forEach(function(id) {
                var el = document.querySelector('[data-layout-id="' + id + '"]');
                if (!el) return;
                el._editDown = function(e) {
                    if (!editState.active) return;
                    if (e.cancelable) e.preventDefault();
                    e.stopPropagation();
                    editState.selectedId = id;
                    editState.dragMode = 'move';
                    document.querySelectorAll('.edit-selected').forEach(function(s) {
                        s.classList.remove('edit-selected');
                        removeResizeHandles(s);
                    });
                    el.classList.add('edit-selected');
                    addResizeHandles(el);
                    var clientX = e.touches ? e.touches[0].clientX : e.clientX;
                    var clientY = e.touches ? e.touches[0].clientY : e.clientY;
                    editState.dragStartX = clientX;
                    editState.dragStartY = clientY;
                    var computed = window.getComputedStyle(el);
                    editState.elStartLeft = parseFloat(computed.left) || 0;
                    editState.elStartTop = parseFloat(computed.top) || 0;
                    editState.elStartW = parseFloat(computed.width) || el.offsetWidth;
                    editState.elStartH = parseFloat(computed.height) || el.offsetHeight;
                };
                el.addEventListener('touchstart', el._editDown, {passive:false});
                el.addEventListener('mousedown', el._editDown);
            });
            document.addEventListener('touchmove', onEditMove, {passive:false});
            document.addEventListener('mousemove', onEditMove);
            document.addEventListener('touchend', onEditEnd, {passive:false});
            document.addEventListener('mouseup', onEditEnd);
        }

        function stopEditMode(save) {
            editState.active = false;
            state.editMode = false;
            document.body.classList.remove('edit-mode');
            editToolbar.style.display = 'none';
            document.querySelectorAll('.edit-selected').forEach(function(s) {
                s.classList.remove('edit-selected');
                removeResizeHandles(s);
            });
            LAYOUT_ELEMENTS.forEach(function(id) {
                var el = document.querySelector('[data-layout-id="' + id + '"]');
                if (!el) return;
                if (el._editDown) {
                    el.removeEventListener('touchstart', el._editDown);
                    el.removeEventListener('mousedown', el._editDown);
                    el._editDown = null;
                }
            });
            document.removeEventListener('touchmove', onEditMove);
            document.removeEventListener('mousemove', onEditMove);
            document.removeEventListener('touchend', onEditEnd);
            document.removeEventListener('mouseup', onEditEnd);
            if (save) {
                var layout = LayoutManager.getActiveLayout();
                LAYOUT_ELEMENTS.forEach(function(id) {
                    var el = document.querySelector('[data-layout-id="' + id + '"]');
                    if (!el) return;
                    var computed = window.getComputedStyle(el);
                    var s = {};
                    if (computed.left && computed.left !== 'auto') s.left = computed.left;
                    if (computed.top && computed.top !== 'auto') s.top = computed.top;
                    if (computed.right && computed.right !== 'auto') s.right = computed.right;
                    if (computed.bottom && computed.bottom !== 'auto') s.bottom = computed.bottom;
                    if (computed.width) s.width = computed.width;
                    if (computed.height) s.height = computed.height;
                    layout.elements[id] = s;
                });
                LayoutManager.save();
            } else {
                LayoutManager.applyLayout(LayoutManager.data.activeLayoutId);
            }
        }

        enterEditBtn.addEventListener('click', startEditMode);
        saveEditBtn.addEventListener('click', function() { stopEditMode(true); });
        cancelEditBtn.addEventListener('click', function() { stopEditMode(false); });
    }

"##;

/// The loop that sends the state of the pad, and the start of it all.
pub const SCRIPT_START: &'static str = r##"    // ========== Game Loop ==========
    function gameLoop(ts) {
        if (state.connected && state.authenticated) {
            if (ts - state.lastSendTime >= state.sendInterval) {
                sendGamepadState();
                state.lastSendTime = ts;
                updateFps();
            }
        }
        state.animFrameId = requestAnimationFrame(gameLoop);
    }

    // ========== Init ==========
    function init() {
        dom = {
            statusDot: $('statusDot'), statusText: $('statusText'), fps: $('fps'),
            controls: $('controls'),
            leftTrigger: $('leftTrigger'), rightTrigger: $('rightTrigger'),
            leftStick: $('leftStick'), rightStick: $('rightStick'),
            leftStickInner: $('leftStickInner'), rightStickInner: $('rightStickInner')
        };
        if (!dom.leftStick || !dom.rightStick) { console.error('DOM elements not found!'); return; }

        updateOrientation();
        window.addEventListener('resize', updateOrientation);
        window.addEventListener('orientationchange', function() {
            setTimeout(updateOrientation, 100);
        });

        LayoutManager.init();
        setupSettingsPanel();
        setupButtons();
        setupTriggers();
        setupDpad();
        setupThumbsticks();
        state.lastSendTime = performance.now();
        state.fpsStartTime = Date.now();
        state.animFrameId = requestAnimationFrame(gameLoop);
        connect();

        var waitForWs = setInterval(function() {
            if (state.ws && state.connected && !state.authenticated) {
                clearInterval(waitForWs);
                showPasswordDialog();
                updateOrientation();
            }
        }, 200);
    }

    if (document.readyState === 'loading') {
        document.addEventListener('DOMContentLoaded', init);
    } else {
        init();
    }
})();
"##;

/// The end of the script and of the page.
pub const PAGE_CLOSE: &'static str = r##"    </script>
</body>
</html>"##;

} // verus!
