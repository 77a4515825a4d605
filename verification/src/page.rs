//! The bootstrap page: a self-contained reader that shows the first markup at
//! once and then polls for changes.

use vstd::prelude::*;

verus! {

/// The page up to the place of the first fingerprint.
pub const PAGE_HEAD: &'static str = r#"
<!DOCTYPE html>
<html lang="ru">
<head>
    <meta charset="UTF-8">
    <title>Текст для чтения</title>
    <meta name="viewport" content="width=device-width, initial-scale=1.0, user-scalable=no">
    <style>
        html, body { 
            margin: 0; 
            padding: 0; 
            width: 100%;
            height: 100%; 
            overflow: hidden; /* Prevent vertical scrollbar */
            font-family: 'Georgia', serif; 
            color: #111; 
            background-color: #fdfdfd; 
        }

        #content-wrapper {
            /* Это наш вьюпорт для прокрутки. Он должен быть равен ширине экрана. */
            height: calc(100vh - 40px);
            width: 100vw;
            overflow: hidden;
            scroll-snap-type: x mandatory;
        }

        #content-container {
            /* Это широкий элемент с колонками. */
            height: 100%;
            
            /* Отступы по бокам ДОЛЖНЫ быть здесь. Это создает отступы для первой и последней страницы. */
            padding-left: 25px;
            padding-right: 25px;
            box-sizing: border-box;
            
            /* Ширина КОНТЕНТА внутри одной колонки. */
            column-width: calc(100vw - 50px);
            
            /* Промежуток МЕЖДУ колонками. */
            column-gap: 50px;
            
            /* Стандартные стили текста */
            font-size: 1.3em; 
            line-height: 1.6;
            text-align: justify;
        }

        #content-container::after {
            content: '';
            display: block; /* Важно использовать block, чтобы он занял свою колонку */
            width: calc(100vw - 50px); /* Ширина контента одной страницы */
            height: 1px; /* Минимальная высота, чтобы элемент существовал */
            break-before: column; /* Гарантируем, что он всегда начнет новую колонку */
        }
                
        /* Rules to prevent elements from breaking across columns (pages) */
        #content-container h1, 
        #content-container h2, 
        #content-container h3,
        #content-container pre, 
        #content-container blockquote, 
        #content-container table, 
        #content-container img,
        #content-container figure {
            break-inside: avoid;
        }
        
        #content-container p {
            widows: 2;
            orphans: 2;
        }
        
        #content-container h1, #content-container h2, #content-container h3 { 
            line-height: 1.2; 
            text-align: left;
        }

        #content-container img { 
            max-width: 100%; 
            height: auto; 
        }
        
        #content-container blockquote { 
            border-left: 4px solid #ccc; 
            padding-left: 1em; 
            margin-left: 0; 
        }
        #content-container pre, #content-container code { 
            white-space: pre-wrap !important; 
            word-break: break-word;
            font-size: 0.85em; 
            background-color: #f3f3f3; 
            border-radius: 4px; 
            padding: 2px 4px;
            text-align: left;
        }
        #content-container pre { 
            padding: 1em; 
            overflow-x: auto;
        }

        /* UI Bar styling (unchanged) */
        #ui-bar { 
            height: 40px; 
            position: fixed; 
            bottom: 0; 
            left: 0; 
            width: 100%; 
            background-color: rgba(255, 255, 255, 0.9); 
            border-top: 1px solid #ddd; 
            display: flex; 
            justify-content: center; 
            align-items: center; 
            box-sizing: border-box; 
            padding: 0 1em; 
            user-select: none; 
            font-family: sans-serif; 
            color: #555; 
        }
    </style>
</head>
<body>
    <div id="content-wrapper">
        <div id="content-container"></div>
    </div>
    <div id="ui-bar"><div id="page-counter"></div></div>
    
    <script>
        let currentPage = 0;
        let totalPages = 0;
        let currentHash = ""#;

/// The page between the first fingerprint and the first markup.
pub const PAGE_MIDDLE: &'static str = r#"";
        let isUpdating = false;

        const wrapper = document.getElementById('content-wrapper');
        const container = document.getElementById('content-container');
        const pageCounter = document.getElementById('page-counter');
        
        function updateLayout() {
            // Используем Math.ceil для подсчета. Если контент занимает 2.1 страницы,
            // нам нужно 3 "экрана" для его отображения. Это самый надежный способ.
            const realTotalPages = Math.ceil(container.scrollWidth / wrapper.clientWidth);

            // Количество страниц для пользователя = реальное количество минус одна (фиктивная).
            totalPages = Math.max(1, realTotalPages - 1);

            // Ограничиваем currentPage, чтобы пользователь не мог перейти на фиктивную страницу.
            currentPage = Math.max(0, Math.min(currentPage, totalPages - 1));
            
            updateUi();
        }

        function updateUi() {
            if (totalPages > 0) {
                pageCounter.textContent = `Страница ${currentPage + 1} из ${totalPages}`;
                
                // Больше никаких сложных формул!
                // Просто прокручиваем на N экранов. Браузер сам справится с позиционированием.
                const scrollLeftPosition = currentPage * wrapper.clientWidth;

                wrapper.scrollTo({
                    left: scrollLeftPosition,
                    behavior: 'auto'
                });
            } else {
                pageCounter.textContent = 'Нет страниц';
            }
        }

        function showPage(pageIndex) {
            if (isUpdating || pageIndex < 0 || pageIndex >= totalPages) return;
            currentPage = pageIndex;
            updateUi();
        }

        function setupNavigation() {
            document.body.addEventListener('click', (event) => {
                if (event.target.closest('#ui-bar') || event.button !== 0) return;
                
                const rect = document.body.getBoundingClientRect();
                if (event.clientX > rect.left + rect.width / 2) {
                    showPage(currentPage + 1);
                } else {
                    showPage(currentPage - 1);
                }
            });
        }

        async function checkForUpdates() {
            if (isUpdating) return;
            try {
                const response = await fetch(`/api/content?_=${new Date().getTime()}`);
                if (!response.ok) return;
                const data = await response.json();
                
                if (data.hash !== currentHash) {
                    isUpdating = true;
                    console.log("Получено обновление контента. Новый хэш:", data.hash);
                    currentHash = data.hash;
                    
                    container.innerHTML = data.html;
                    
                    setTimeout(() => {
                        currentPage = 0; // Сброс на первую страницу при обновлении
                        updateLayout();
                        isUpdating = false;
                    }, 100); 
                }
            } catch (error) {
                console.error('Ошибка при проверке обновлений:', error);
                isUpdating = false;
            }
        }

        function initialize(initialContent) {
            isUpdating = true;
            container.innerHTML = initialContent;
            
            setTimeout(() => {
                updateLayout();
                setupNavigation();
                setInterval(checkForUpdates, 3000);
                isUpdating = false;
            }, 100);

            let resizeTimeout;
            window.addEventListener('resize', () => {
                clearTimeout(resizeTimeout);
                resizeTimeout = setTimeout(updateLayout, 250);
            });
        }
        
        document.addEventListener('DOMContentLoaded', () => {
            initialize("#;

/// The page after the first markup.
pub const PAGE_TAIL: &'static str = r#");
        });
    </script>
</body>
</html>
"#;

/// The bootstrap page around a fingerprint and a script literal of the markup.
pub open spec fn page_of(hash: Seq<char>, content_literal: Seq<char>) -> Seq<char> {
    PAGE_HEAD@ + hash + PAGE_MIDDLE@ + content_literal + PAGE_TAIL@
}

/// Builds the bootstrap page around a fingerprint and a script literal of the
/// markup.
pub fn render_page(hash: &str, content_literal: &str) -> (page: String)
    ensures
        page@ == page_of(hash@, content_literal@),
{
    let mut page = String::from_str(PAGE_HEAD);
    page.append(hash);
    page.append(PAGE_MIDDLE);
    page.append(content_literal);
    page.append(PAGE_TAIL);
    page
}

} // verus!
