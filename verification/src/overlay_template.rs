//! The page script that shows the overlay and reports playback, as a
//! template: `{auth_url}`, `{key}`, `{version}` and `{playback_url}` stand
//! for what `build_overlay_script` fills in. The text is held in parts.

use vstd::prelude::*;
use vstd::string::StringExecFns;

verus! {

pub const OVERLAY_PART_1: &'static str = r#"
    (() => {
      console.info('[MSCD] Overlay script loaded');
      if (window.__minimal_sc_overlay_installed) return;
      window.__minimal_sc_overlay_installed = true;

      const getInvoker = () => {
        try {
          const t = window.__TAURI__;
          return t?.invoke ?? t?.core?.invoke ?? null;
        } catch (e) {
          console.warn('[MSCD] __TAURI__ unavailable', e);
          return null;
        }
      };

      function inject() {
        try {
        console.info('[MSCD] Injecting overlay');
        const host = document.createElement('div');
        host.id = 'mscd-overlay-host';
        host.style.position = 'fixed';
        host.style.top = '0';
        host.style.left = '0';
        host.style.right = '0';
        host.style.padding = '8px 8px 0 8px';
        host.style.zIndex = '2147483647';
        host.style.pointerEvents = 'none';
        document.body.appendChild(host);

        const shadow = host.attachShadow({ mode: 'open' });

        const style = document.createElement('style');
        style.textContent = `
          :host { all: initial; }
          * { box-sizing: border-box; }
          .shell {
            width: 100%;
            pointer-events: auto;
            display: flex;
            align-items: center;
            justify-content: space-between;
            gap: 10px;
            padding: 8px 12px;
            min-height: 36px;
            background: rgba(12, 14, 20, 0.96);
            border: 1px solid rgba(255,255,255,0.12);
            border-radius: 10px;
            box-shadow: 0 12px 26px rgba(0,0,0,0.25);
            backdrop-filter: blur(7px);
            color: #e9ecf5;
            font-family: -apple-system, BlinkMacSystemFont, 'Segoe UI', sans-serif;
          }
          .brand { display: flex; align-items: center; gap: 10px; min-width: 0; }
          .title { font-weight: 700; white-space: nowrap; }
          .muted { color: #a7acb8; font-size: 12px; white-space: nowrap; }
          .actions { display: flex; gap: 8px; flex-wrap: wrap; justify-content: flex-end; }
          button {
            height: 30px;
            padding: 0 12px;
"#;

pub const OVERLAY_PART_2: &'static str = r#"            border-radius: 9px;
            border: 1px solid rgba(255,255,255,0.16);
            background: #1b202b;
            color: #e9ecf5;
            font-weight: 600;
            cursor: pointer;
            transition: background 120ms ease, border-color 120ms ease, transform 120ms ease;
          }
          button:hover { background: #252c3b; border-color: rgba(255,255,255,0.22); }
          button:active { transform: translateY(1px); }

          .modal-backdrop {
            position: fixed;
            inset: 0;
            background: rgba(0,0,0,0.35);
            backdrop-filter: blur(5px);
            display: none;
            align-items: center;
            justify-content: center;
            padding: 16px;
            pointer-events: none;
          }
          .modal-backdrop.open { display: flex; pointer-events: auto; }
          .modal {
            width: min(520px, 96vw);
            background: #0f131c;
            border: 1px solid rgba(255,255,255,0.12);
            border-radius: 14px;
            padding: 18px;
            box-shadow: 0 30px 70px rgba(0,0,0,0.45);
            color: #e9ecf5;
            display: flex;
            flex-direction: column;
            gap: 14px;
            font-family: -apple-system, BlinkMacSystemFont, 'Segoe UI', sans-serif;
          }
          .row { display: flex; justify-content: space-between; gap: 8px; align-items: center; }
          .row + .row { margin-top: 4px; }
          .muted { color: #a7acb8; font-size: 13px; }
          .toggle { display: flex; align-items: center; gap: 8px; }
          .toggle input { accent-color: #3c57ff; }
          .slider-wrapper { display: inline-flex; align-items: center; gap: 8px; min-width: 170px; }
          .slider { width: 140px; }
          .section h3 { margin: 0; font-size: 15px; }
          .section {
            border: 1px solid rgba(255,255,255,0.08);
            border-radius: 10px;
            padding: 12px;
            background: rgba(255,255,255,0.03);
          }
          .modal header { display: flex; justify-content: space-between; align-items: center; gap: 8px; }
          .close { height: 32px; padding: 0 10px; }
          .warning { color: #ffb95f; font-size: 12px; }
        `;
        shadow.appendChild(style);

        const offsetId = 'mscd-offset-style';
        if (!document.getElementById(offsetId)) {
          const s = document.createElement('style');
          s.id = offsetId;
"#;

pub const OVERLAY_PART_3: &'static str = r#"          s.textContent = 'body { padding-top: 48px !important; }';
          document.head.appendChild(s);
        }

        let settingsOpen = false;
        let darkMode = true;

        const shell = document.createElement('div');
        shell.className = 'shell';

        const brand = document.createElement('div');
        brand.className = 'brand';
        const title = document.createElement('span');
        title.className = 'title';
        title.textContent = 'Minimal SC Desktop';
        const status = document.createElement('span');
        status.className = 'muted';
        status.textContent = 'v{version}';
        brand.append(title, status);

        const actions = document.createElement('div');
        actions.className = 'actions';

        const btnSettings = document.createElement('button');
        btnSettings.textContent = 'Settings';
        const btnDark = document.createElement('button');
        btnDark.textContent = 'Dark mode';
        const btnTray = document.createElement('button');
        btnTray.textContent = 'Minimize to tray';

        actions.append(btnSettings, btnDark, btnTray);
        shell.append(brand, actions);

        const backdrop = document.createElement('div');
        backdrop.className = 'modal-backdrop';

        const modal = document.createElement('div');
        modal.className = 'modal';

        const header = document.createElement('header');
        const h2 = document.createElement('h2');
        h2.textContent = 'Settings';
        const btnClose = document.createElement('button');
        btnClose.className = 'close';
        btnClose.textContent = 'Close';
        header.append(h2, btnClose);

        const makeToggleRow = (labelText, checked = true) => {
          const row = document.createElement('div');
          row.className = 'row';
          const label = document.createElement('span');
          label.textContent = labelText;
          const wrap = document.createElement('label');
          wrap.className = 'toggle';
          const input = document.createElement('input');
          input.type = 'checkbox';
          input.checked = !!checked;
          wrap.appendChild(input);
          row.append(label, wrap);
          return { row, input };
"#;

pub const OVERLAY_PART_4: &'static str = r#"        };

        const makeSliderRow = () => {
          const row = document.createElement('div');
          row.className = 'row';
          const label = document.createElement('span');
          label.textContent = 'Scrobble threshold';

          const wrap = document.createElement('div');
          wrap.className = 'toggle slider-wrapper';

          const slider = document.createElement('input');
          slider.type = 'range';
          slider.min = '1';
          slider.max = '100';
          slider.value = '50';
          slider.className = 'slider';

          const val = document.createElement('span');
          val.className = 'muted';
          val.id = 'mscd-threshold-label';
          val.style.minWidth = '36px';
          val.style.display = 'inline-block';
          val.style.textAlign = 'right';
          val.textContent = '50%';

          wrap.append(slider, val);
          row.append(label, wrap);
          return { row, slider, val };
        };

        const makeLastfmRow = (authUrl, keyMissing, warnText) => {
          const row = document.createElement('div');
          row.className = 'row';

          const statusWrap = document.createElement('div');
          statusWrap.className = 'toggle';
          const statusLabel = document.createElement('span');
          statusLabel.textContent = 'Status: ';
          const statusValue = document.createElement('strong');
          statusValue.textContent = 'Not connected';
          statusWrap.append(statusLabel, statusValue);

          const toggleWrap = document.createElement('div');
          toggleWrap.className = 'toggle';
          toggleWrap.style.gap = '12px';

          const connectBtn = document.createElement('button');
          connectBtn.id = 'mscd-lastfm-connect';
          connectBtn.textContent = 'Connect in browser';
          if (keyMissing) connectBtn.disabled = true;

          const disconnectBtn = document.createElement('button');
          disconnectBtn.textContent = 'Disconnect';
          disconnectBtn.style.display = 'none';

          toggleWrap.append(connectBtn, disconnectBtn);
          row.append(statusWrap, toggleWrap);

          let warnNode = null;
"#;

pub const OVERLAY_PART_5: &'static str = r#"          if (warnText) {
            warnNode = document.createElement('div');
            warnNode.className = 'warning';
            warnNode.textContent = warnText;
          }

          const authInfo = document.createElement('div');
          authInfo.className = 'muted';
          authInfo.textContent = `Auth URL: ${authUrl}`;

          const setStatus = (session) => {
            if (session && session.username) {
              statusValue.textContent = `Connected as ${session.username}`;
              connectBtn.disabled = true;
              disconnectBtn.disabled = false;
              disconnectBtn.style.display = '';
            } else {
              statusValue.textContent = 'Not connected';
              connectBtn.disabled = !!keyMissing;
              disconnectBtn.disabled = true;
              disconnectBtn.style.display = 'none';
            }
          };

          setStatus(null);

          return { row, connectBtn, disconnectBtn, warnNode, authInfo, setStatus };
        };

        const secPlayback = document.createElement('div');
        secPlayback.className = 'section';
        const s1Title = document.createElement('h3');
        s1Title.textContent = 'Playback & Ads';
        const adRow = makeToggleRow('Skip audio ads');
        const promoRow = makeToggleRow('Skip promoted tracks');
        secPlayback.append(s1Title, adRow.row, promoRow.row);

        const secScrobble = document.createElement('div');
        secScrobble.className = 'section';
        const s2Title = document.createElement('h3');
        s2Title.textContent = 'Scrobbling';
        const scrobbleToggle = makeToggleRow('Enable scrobbling');
        const thresholdRow = makeSliderRow();
        const nowPlayingRow = makeToggleRow('Send \"Now Playing\"');
        const notifyRow = makeToggleRow('Show scrobble notifications');
        secScrobble.append(s2Title, scrobbleToggle.row, thresholdRow.row, nowPlayingRow.row, notifyRow.row);

        const secLastfm = document.createElement('div');
        secLastfm.className = 'section';
        const s3Title = document.createElement('h3');
        s3Title.textContent = 'Last.fm';
        const keyMissing = '{key}' === 'REPLACE_ME';
        const authUrl = '{auth_url}';
        const warnText = keyMissing ? 'Set LASTFM_API_KEY & LASTFM_CALLBACK to enable auth.' : '';
        const lf = makeLastfmRow(authUrl, keyMissing, warnText);
        secLastfm.append(s3Title, lf.row);
        if (lf.warnNode) secLastfm.append(lf.warnNode);
        secLastfm.append(lf.authInfo);

        modal.append(header, secPlayback, secScrobble, secLastfm);
"#;

pub const OVERLAY_PART_6: &'static str = r#"        backdrop.appendChild(modal);

        const setModalOpen = (open) => {
          settingsOpen = open;
          backdrop.classList.toggle('open', open);
        };

        btnSettings.onclick = () => setModalOpen(true);
        btnClose.onclick = () => setModalOpen(false);
        backdrop.onclick = (e) => {
          if (e.target === backdrop) setModalOpen(false);
        };

        btnDark.onclick = () => {
          darkMode = !darkMode;
          host.dataset.theme = darkMode ? 'dark' : 'light';
          btnDark.textContent = darkMode ? 'Dark mode' : 'Light mode';
        };
        btnTray.onclick = () => alert('Minimize to tray (placeholder)');

        const fallbackOpen = (url) => {
          const opened = window.open(url, '_blank', 'noopener,noreferrer');
          if (!opened) {
            console.warn('[MSCD] window.open blocked, trying anchor click');
            const anchor = document.createElement('a');
            anchor.href = url;
            anchor.target = '_blank';
            anchor.rel = 'noopener noreferrer';
            shadow.appendChild(anchor);
            anchor.click();
            shadow.removeChild(anchor);
          }
          if (!opened) {
            console.warn('[MSCD] Fallback to same-window navigation');
            window.location.href = url;
          }
        };

        const refreshLastfmStatus = async () => {
          const invoke = getInvoker();
          if (!invoke) return null;
          try {
            const session = await invoke('get_lastfm_status');
            lf.setStatus(session || null);
            return session || null;
          } catch (err) {
            console.warn('[MSCD] get_lastfm_status failed', err);
            return null;
          }
        };

        const pollForSession = (attempt = 0) => {
          if (attempt > 30) return;
          setTimeout(async () => {
            const session = await refreshLastfmStatus();
            if (!session) {
              pollForSession(attempt + 1);
            }
          }, 2000);
        };
"#;

pub const OVERLAY_PART_7: &'static str = r#"
        lf.connectBtn?.addEventListener('click', () => {
          if (keyMissing) {
            console.warn('[MSCD] Key missing; connect disabled');
            return;
          }

          try {
            const invoke = getInvoker();
            if (invoke) {
              console.info('[MSCD] Opening via open_external command', authUrl);
              Promise.resolve(invoke('open_external', { url: authUrl }))
                .then(() => {
                  console.info('[MSCD] open_external success');
                  pollForSession();
                })
                .catch((err) => {
                  console.warn('[MSCD] open_external failed; falling back', err);
                  fallbackOpen(authUrl);
                  pollForSession();
                });
              return;
            } else {
              console.warn('[MSCD] __TAURI__.invoke unavailable; falling back to window.open');
            }
          } catch (e) {
            console.warn('TAURI shell unavailable, falling back to window.open', e);
          }

          fallbackOpen(authUrl);
          pollForSession();
        });

        lf.disconnectBtn?.addEventListener('click', async () => {
          const invoke = getInvoker();
          if (!invoke) return;
          try {
            await invoke('disconnect_lastfm');
            lf.setStatus(null);
          } catch (err) {
            console.warn('[MSCD] disconnect_lastfm failed', err);
          }
        });

        const slider = thresholdRow.slider;
        const label = thresholdRow.val;
        slider?.addEventListener('input', () => {
          label.textContent = `${slider.value}%`;
        });

        shadow.append(shell, backdrop);

        refreshLastfmStatus();

        // --- Scrobble observer (MediaSession primary, DOM fallback) ---
        const startScrobbleObserver = () => {
          const endpoint = '{playback_url}';
          console.info('[MSCD] Scrobble observer starting, endpoint:', endpoint);
          if (!endpoint) {
            console.warn('[MSCD] playback endpoint missing, observer disabled');
"#;

pub const OVERLAY_PART_8: &'static str = r#"            return;
          }
          let lastPayload = null;
          let logCount = 0;
          let lastLoggedTrack = null;

          const grabMeta = () => {
            const toSeconds = (text) => {
              if (!text) return 0;
              const match = text.match(/(\d{1,2}:)?\d{1,2}:\d{2}/g);
              const raw = match ? match[match.length - 1] : text.trim();
              const parts = raw.split(':').map((p) => parseInt(p, 10));
              if (!parts.length || parts.some((p) => Number.isNaN(p))) return 0;
              return parts.reduce((acc, part) => acc * 60 + part, 0);
            };

            const audio = document.querySelector('audio');
            if (!audio && logCount < 5) {
              console.info('[MSCD] No audio element found yet');
              logCount += 1;
            }
            const posMs = audio ? Math.floor((audio.currentTime || 0) * 1000) : 0;
            let paused = audio ? !!audio.paused : true;

            let title = null;
            let artist = null;
            let durationMs = audio ? Math.floor((audio.duration || 0) * 1000) : 0;

            if (navigator.mediaSession?.metadata) {
              title = navigator.mediaSession.metadata.title || title;
              artist = navigator.mediaSession.metadata.artist || artist;
              durationMs = navigator.mediaSession.metadata.duration
                ? Math.floor(navigator.mediaSession.metadata.duration * 1000)
                : durationMs;
            }

            if (!title || !artist) {
              const titleEl = document.querySelector('.playbackSoundBadge__titleLink span[aria-hidden="true"]')
                || document.querySelector('.playbackSoundBadge__titleLink')
                || document.querySelector('.playbackSoundBadge__title');
              const artistEl = document.querySelector('.playbackSoundBadge__lightLink');
              title = title || (titleEl ? titleEl.textContent?.trim() : null);
              artist = artist || (artistEl ? artistEl.textContent?.trim() : null);
            }

            if (title) {
              title = title.replace(/^Current track:\s*/i, '').trim();
            }

            if (navigator.mediaSession?.playbackState) {
              paused = navigator.mediaSession.playbackState !== 'playing';
            } else if (!audio) {
              const playBtn = document.querySelector('.playControls__play');
              const label = playBtn?.getAttribute('aria-label') || '';
              if (label) {
                paused = !/pause/i.test(label);
              } else if (playBtn?.classList.contains('playing')) {
                paused = false;
              }
            }
"#;

pub const OVERLAY_PART_9: &'static str = r#"
            const durationText =
              document.querySelector('.playbackTimeline__duration span[aria-hidden="true"]')?.textContent ||
              document.querySelector('.playbackTimeline__duration')?.textContent ||
              '';
            const passedText =
              document.querySelector('.playbackTimeline__timePassed span[aria-hidden="true"]')?.textContent ||
              document.querySelector('.playbackTimeline__timePassed')?.textContent ||
              '';

            const durationSec = toSeconds(durationText);
            const passedSec = toSeconds(passedText);
            if (!durationMs && durationSec) durationMs = Math.floor(durationSec * 1000);
            let positionMs = posMs || (passedSec ? Math.floor(passedSec * 1000) : 0);

            const slider = document.querySelector('.playbackTimeline__progressWrapper[role="progressbar"][aria-valuenow][aria-valuemax]');
            if (slider) {
              const maxVal = parseFloat(slider.getAttribute('aria-valuemax') || '0');
              const nowVal = parseFloat(slider.getAttribute('aria-valuenow') || '0');
              if (!durationMs && maxVal > 100) {
                durationMs = Math.floor(maxVal * 1000);
              }
              if (!positionMs && nowVal > 0 && maxVal > 0) {
                positionMs = Math.floor(nowVal * 1000);
              }
            }

            const trackHref = document.querySelector('.playbackSoundBadge__titleLink')?.getAttribute('href');
            const trackId = trackHref || window.location.pathname || title || 'unknown';

            return {
              trackId,
              title,
              artist,
              durationMs,
              positionMs,
              paused,
              ts: Date.now(),
            };
          };

          const pushUpdate = () => {
            const payload = grabMeta();
            if (!payload.title || !payload.artist || !payload.durationMs) {
              if (logCount < 5) {
                console.info('[MSCD] Missing metadata', {
                  title: payload.title,
                  artist: payload.artist,
                  durationMs: payload.durationMs,
                });
                logCount += 1;
              }
              return;
            }

            if (logCount < 5 || payload.trackId !== lastLoggedTrack) {
              console.info('[MSCD] playback payload', payload);
              logCount += 1;
              lastLoggedTrack = payload.trackId;
            }
"#;

pub const OVERLAY_PART_10: &'static str = r#"
            // avoid spamming identical payloads
            if (lastPayload &&
                lastPayload.trackId === payload.trackId &&
                lastPayload.title === payload.title &&
                lastPayload.artist === payload.artist &&
                Math.abs(lastPayload.positionMs - payload.positionMs) < 900 &&
                lastPayload.paused === payload.paused) {
              return;
            }
            lastPayload = payload;

            const body = JSON.stringify(payload);
            if (navigator.sendBeacon) {
              const blob = new Blob([body], { type: 'text/plain' });
              const sent = navigator.sendBeacon(endpoint, blob);
              if (sent) return;
            }

            fetch(endpoint, {
              method: 'POST',
              mode: 'no-cors',
              headers: { 'Content-Type': 'text/plain' },
              body,
            }).catch((err) => {
              console.warn('[MSCD] playback post failed', err);
            });
          };

          setInterval(pushUpdate, 2000);
          document.addEventListener('visibilitychange', () => {
            if (!document.hidden) pushUpdate();
          });
        };

        startScrobbleObserver();

        const settingsUrl = endpoint.replace(/\/playback$/, '/settings');

        const applySettings = (cfg) => {
          if (!cfg) return;
          if (typeof cfg.threshold === 'number') {
            const percent = Math.max(1, Math.min(100, Math.round(cfg.threshold * 100)));
            thresholdRow.slider.value = String(percent);
            thresholdRow.val.textContent = `${percent}%`;
          }
          if (typeof cfg.enable_scrobble === 'boolean') {
            scrobbleToggle.input.checked = cfg.enable_scrobble;
          }
          if (typeof cfg.enable_now_playing === 'boolean') {
            nowPlayingRow.input.checked = cfg.enable_now_playing;
          }
          if (typeof cfg.enable_notifications === 'boolean') {
            notifyRow.input.checked = cfg.enable_notifications;
          }
        };

        const gatherSettings = () => ({
          threshold: Math.max(0.01, Math.min(1, Number(thresholdRow.slider.value) / 100)),
          enable_scrobble: scrobbleToggle.input.checked,
"#;

pub const OVERLAY_PART_11: &'static str = r#"          enable_now_playing: nowPlayingRow.input.checked,
          enable_notifications: notifyRow.input.checked,
        });

        const loadSettings = async () => {
          if (!settingsUrl) return;
          try {
            const res = await fetch(settingsUrl, { method: 'GET', mode: 'cors' });
            if (!res.ok) {
              console.warn('[MSCD] settings load failed', res.status);
              return;
            }
            const cfg = await res.json();
            applySettings(cfg);
          } catch (err) {
            console.warn('[MSCD] settings load error', err);
          }
        };

        const saveSettings = async () => {
          if (!settingsUrl) return;
          const payload = gatherSettings();
          try {
            const res = await fetch(settingsUrl, {
              method: 'POST',
              mode: 'cors',
              headers: { 'Content-Type': 'application/json' },
              body: JSON.stringify(payload),
            });
            if (!res.ok) {
              console.warn('[MSCD] settings save failed', res.status);
              return;
            }
            const cfg = await res.json();
            applySettings(cfg);
          } catch (err) {
            console.warn('[MSCD] settings save error', err);
          }
        };
        slider?.addEventListener('change', () => {
          saveSettings();
        });

        scrobbleToggle.input.addEventListener('change', saveSettings);
        nowPlayingRow.input.addEventListener('change', saveSettings);
        notifyRow.input.addEventListener('change', saveSettings);
        loadSettings();
        console.info('[MSCD] Overlay injected');
        } catch (err) {
          console.warn('[MSCD] Overlay inject failed', err);
        }
      }

      const ready = () => {
        if (document.body) {
          inject();
        } else {
          console.info('[MSCD] Waiting for document.body');
          setTimeout(ready, 50);
        }
"#;

pub const OVERLAY_PART_12: &'static str = r#"      };
      ready();
    })();
    "#;

/// The text of the template: its parts, one after the other.
pub open spec fn template_text() -> Seq<char> {
    OVERLAY_PART_1@ + OVERLAY_PART_2@ + OVERLAY_PART_3@ + OVERLAY_PART_4@ + OVERLAY_PART_5@ + OVERLAY_PART_6@ + OVERLAY_PART_7@ + OVERLAY_PART_8@ + OVERLAY_PART_9@ + OVERLAY_PART_10@ + OVERLAY_PART_11@ + OVERLAY_PART_12@
}

/// The template.
pub fn overlay_template() -> (template: String)
    ensures
        template@ == template_text(),
{
    let mut template = String::from_str(OVERLAY_PART_1);
    template.append(OVERLAY_PART_2);
    template.append(OVERLAY_PART_3);
    template.append(OVERLAY_PART_4);
    template.append(OVERLAY_PART_5);
    template.append(OVERLAY_PART_6);
    template.append(OVERLAY_PART_7);
    template.append(OVERLAY_PART_8);
    template.append(OVERLAY_PART_9);
    template.append(OVERLAY_PART_10);
    template.append(OVERLAY_PART_11);
    template.append(OVERLAY_PART_12);
    template
}

} // verus!
